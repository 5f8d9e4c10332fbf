//! Inference requests and responses, and the backends that serve them.

pub mod cli;
pub mod detect;
pub mod server;

use vstd::prelude::*;

use crate::config::{opt_view, EffectiveConfig};
use crate::error::VisionError;
use crate::trusted::{b64_digit, base64_encode, base64_spec, is_base64_text};

verus! {

/// One inference request: the resolved prompt and the raw image bytes.
#[derive(Debug, Clone)]
pub struct InferenceRequest {
    pub prompt: String,
    /// Primary image bytes (raw, NOT base64).
    pub image: Vec<u8>,
    /// Optional second image (for `two_images` presets).
    pub image_b: Option<Vec<u8>>,
    pub max_tokens: u32,
    /// Sampling temperature, as the bit pattern of an `f32`.
    pub temperature_bits: u32,
    /// Time allowed for the inference, in milliseconds.
    pub timeout_ms: u64,
}

/// Inference response: model output and metrics.
#[derive(Debug, Clone)]
pub struct InferenceResponse {
    pub text: String,
    pub tokens: u32,
    pub time_ms: u64,
    pub model: String,
}

/// Resolved backend ready to execute inference.
#[derive(Debug)]
pub enum Backend {
    Server(server::ServerClient),
    Cli(cli::CliClient),
}

/// The label a backend reports itself with.
pub open spec fn label_of(b: Backend) -> Seq<char> {
    match b {
        Backend::Server(_) => "server"@,
        Backend::Cli(_) => "cli"@,
    }
}

impl Backend {
    /// `"server"` or `"cli"`.
    pub fn label(&self) -> (r: &'static str)
        ensures
            r@ == label_of(*self),
    {
        match self {
            Backend::Server(_) => "server",
            Backend::Cli(_) => "cli",
        }
    }
}

/// The plain view of a request: every field by value.
pub open spec fn request_view(r: InferenceRequest) -> (
    Seq<char>,
    Seq<u8>,
    Option<Seq<u8>>,
    u32,
    u32,
    u64,
) {
    (
        r.prompt@,
        r.image@,
        match r.image_b {
            Some(b) => Some(b@),
            None => None,
        },
        r.max_tokens,
        r.temperature_bits,
        r.timeout_ms,
    )
}

/// Encode bytes with the standard base64 alphabet, with padding.
pub fn encode_b64(bytes: &[u8]) -> (r: String)
    requires
        bytes@.len() <= usize::MAX / 2,
    ensures
        r@ == base64_spec(bytes@),
{
    base64_encode(bytes)
}

/// The message given when no model path is configured.
pub open spec fn no_model_message() -> Seq<char> {
    "model path not configured (set --model or $VISION_MODEL_PATH)"@
}

/// Resolve the model path from config or return a descriptive error.
pub fn resolve_model_path(cfg: &EffectiveConfig) -> (r: Result<String, VisionError>)
    ensures
        (match r {
            Ok(p) => opt_view(cfg.model) == Some(p@),
            Err(e) => cfg.model is None && (e matches VisionError::ModelNotFound(m) && m@
                == no_model_message()),
        }),
{
    match &cfg.model {
        Some(p) => Ok(p.clone()),
        None => Err(
            VisionError::ModelNotFound(
                String::from_str("model path not configured (set --model or $VISION_MODEL_PATH)"),
            ),
        ),
    }
}


proof fn lemma_b64_digit(v: int)
    requires
        0 <= v < 64,
    ensures
        b64_digit(v) != '=',
        v < 26 ==> b64_digit(v) as u32 == 65 + v,
        26 <= v < 52 ==> b64_digit(v) as u32 == 97 + v - 26,
        52 <= v < 62 ==> b64_digit(v) as u32 == 48 + v - 52,
        v == 62 ==> b64_digit(v) as u32 == 43,
        v == 63 ==> b64_digit(v) as u32 == 47,
{
}

proof fn lemma_b64_digit_injective(v: int, w: int)
    requires
        0 <= v < 64,
        0 <= w < 64,
        b64_digit(v) == b64_digit(w),
    ensures
        v == w,
{
    lemma_b64_digit(v);
    lemma_b64_digit(w);
    assert(b64_digit(v) as u32 == b64_digit(w) as u32);
}

proof fn lemma_base64_len(b: Seq<u8>)
    ensures
        b.len() == 0 ==> base64_spec(b).len() == 0,
        b.len() > 0 ==> base64_spec(b).len() >= 4,
        1 <= b.len() <= 3 ==> base64_spec(b).len() == 4,
    decreases b.len(),
{
    if b.len() >= 3 {
        lemma_base64_len(b.subrange(3, b.len() as int));
    }
}

proof fn lemma_group(x: int, y: int, z: int, x2: int, y2: int, z2: int)
    requires
        0 <= x < 256,
        0 <= y < 256,
        0 <= z < 256,
        0 <= x2 < 256,
        0 <= y2 < 256,
        0 <= z2 < 256,
        x / 4 == x2 / 4,
        (x % 4) * 16 + y / 16 == (x2 % 4) * 16 + y2 / 16,
        (y % 16) * 4 + z / 64 == (y2 % 16) * 4 + z2 / 64,
        z % 64 == z2 % 64,
    ensures
        x == x2,
        y == y2,
        z == z2,
{
    assert(x % 4 == x2 % 4 && y / 16 == y2 / 16) by (nonlinear_arith)
        requires
            0 <= x < 256,
            0 <= y < 256,
            0 <= x2 < 256,
            0 <= y2 < 256,
            (x % 4) * 16 + y / 16 == (x2 % 4) * 16 + y2 / 16,
    ;
    assert(y % 16 == y2 % 16 && z / 64 == z2 / 64) by (nonlinear_arith)
        requires
            0 <= y < 256,
            0 <= z < 256,
            0 <= y2 < 256,
            0 <= z2 < 256,
            (y % 16) * 4 + z / 64 == (y2 % 16) * 4 + z2 / 64,
    ;
    assert(x == x2) by (nonlinear_arith)
        requires
            x / 4 == x2 / 4,
            x % 4 == x2 % 4,
    ;
    assert(y == y2) by (nonlinear_arith)
        requires
            y / 16 == y2 / 16,
            y % 16 == y2 % 16,
    ;
    assert(z == z2) by (nonlinear_arith)
        requires
            z / 64 == z2 / 64,
            z % 64 == z2 % 64,
    ;
}

proof fn lemma_digit_range(x: int, y: int, z: int)
    requires
        0 <= x < 256,
        0 <= y < 256,
        0 <= z < 256,
    ensures
        0 <= x / 4 < 64,
        0 <= (x % 4) * 16 + y / 16 < 64,
        0 <= (y % 16) * 4 + z / 64 < 64,
        0 <= z % 64 < 64,
        0 <= (x % 4) * 16 < 64,
        0 <= (y % 16) * 4 < 64,
{
}

/// Standard base64 is one-to-one: different bytes never share an encoding.
pub proof fn lemma_base64_injective(a: Seq<u8>, b: Seq<u8>)
    requires
        base64_spec(a) == base64_spec(b),
    ensures
        a == b,
    decreases a.len(),
{
    let s = base64_spec(a);
    lemma_base64_len(a);
    lemma_base64_len(b);
    if a.len() == 0 || b.len() == 0 {
        assert(a.len() == 0 && b.len() == 0);
        assert(a =~= b);
        return;
    }
    let x = a[0] as int;
    let x2 = b[0] as int;
    let y = if a.len() > 1 { a[1] as int } else { 0 };
    let y2 = if b.len() > 1 { b[1] as int } else { 0 };
    let z = if a.len() > 2 { a[2] as int } else { 0 };
    let z2 = if b.len() > 2 { b[2] as int } else { 0 };
    lemma_digit_range(x, y, z);
    lemma_digit_range(x2, y2, z2);
    // The padding in the first group tells how many bytes it holds.
    if a.len() >= 3 {
        lemma_b64_digit(z % 64);
    }
    if a.len() >= 2 {
        lemma_b64_digit((y % 16) * 4 + z / 64);
        lemma_b64_digit((y % 16) * 4);
    }
    if b.len() >= 3 {
        lemma_b64_digit(z2 % 64);
    }
    if b.len() >= 2 {
        lemma_b64_digit((y2 % 16) * 4 + z2 / 64);
        lemma_b64_digit((y2 % 16) * 4);
    }
    assert(s[3] == base64_spec(b)[3]);
    assert(s[2] == base64_spec(b)[2]);
    assert((a.len() >= 3) == (b.len() >= 3));
    assert((a.len() == 2) == (b.len() == 2));
    assert(s[0] == base64_spec(b)[0]);
    assert(s[1] == base64_spec(b)[1]);
    let t = base64_spec(b);
    if a.len() == 1 {
        assert(s[0] == b64_digit(x / 4) && s[1] == b64_digit((x % 4) * 16));
        assert(t[0] == b64_digit(x2 / 4) && t[1] == b64_digit((x2 % 4) * 16));
    } else if a.len() == 2 {
        assert(s[0] == b64_digit(x / 4) && s[1] == b64_digit((x % 4) * 16 + y / 16));
        assert(t[0] == b64_digit(x2 / 4) && t[1] == b64_digit((x2 % 4) * 16 + y2 / 16));
        assert(s[2] == b64_digit((y % 16) * 4) && t[2] == b64_digit((y2 % 16) * 4));
    } else {
        let ga = seq![
            b64_digit(x / 4),
            b64_digit((x % 4) * 16 + y / 16),
            b64_digit((y % 16) * 4 + z / 64),
            b64_digit(z % 64),
        ];
        let gb = seq![
            b64_digit(x2 / 4),
            b64_digit((x2 % 4) * 16 + y2 / 16),
            b64_digit((y2 % 16) * 4 + z2 / 64),
            b64_digit(z2 % 64),
        ];
        assert(s == ga + base64_spec(a.subrange(3, a.len() as int)));
        assert(t == gb + base64_spec(b.subrange(3, b.len() as int)));
        assert(s[0] == ga[0] && s[1] == ga[1] && s[2] == ga[2] && s[3] == ga[3]);
        assert(t[0] == gb[0] && t[1] == gb[1] && t[2] == gb[2] && t[3] == gb[3]);
    }
    lemma_b64_digit_injective(x / 4, x2 / 4);
    if a.len() == 1 {
        lemma_b64_digit_injective((x % 4) * 16, (x2 % 4) * 16);
        assert(x == x2) by (nonlinear_arith)
            requires
                x / 4 == x2 / 4,
                (x % 4) * 16 == (x2 % 4) * 16,
        ;
        assert(a =~= b);
    } else if a.len() == 2 {
        lemma_b64_digit_injective((x % 4) * 16 + y / 16, (x2 % 4) * 16 + y2 / 16);
        lemma_b64_digit_injective((y % 16) * 4, (y2 % 16) * 4);
        lemma_group(x, y, 0, x2, y2, 0);
        assert(a =~= b);
    } else {
        lemma_b64_digit_injective((x % 4) * 16 + y / 16, (x2 % 4) * 16 + y2 / 16);
        lemma_b64_digit_injective((y % 16) * 4 + z / 64, (y2 % 16) * 4 + z2 / 64);
        lemma_b64_digit_injective(z % 64, z2 % 64);
        lemma_group(x, y, z, x2, y2, z2);
        let ra = a.subrange(3, a.len() as int);
        let rb = b.subrange(3, b.len() as int);
        assert(base64_spec(ra) =~= s.subrange(4, s.len() as int));
        assert(base64_spec(rb) =~= base64_spec(b).subrange(4, base64_spec(b).len() as int));
        lemma_base64_injective(ra, rb);
        assert(a =~= a.subrange(0, 3) + ra);
        assert(b =~= b.subrange(0, 3) + rb);
        assert(a.subrange(0, 3) =~= b.subrange(0, 3));
    }
}

/// The bytes a standard base64 text encodes, when it encodes any.
pub open spec fn base64_decode_spec(s: Seq<char>) -> Option<Seq<u8>> {
    if is_base64_text(s) {
        Some(choose|b: Seq<u8>| s == base64_spec(b))
    } else {
        None
    }
}

/// Decoding gives back what encoding was given: the image a warm daemon
/// receives is the image the client read.
pub proof fn law_base64_roundtrip(b: Seq<u8>)
    ensures
        base64_decode_spec(base64_spec(b)) == Some(b),
{
    let s = base64_spec(b);
    assert(is_base64_text(s));
    let c = choose|c: Seq<u8>| s == base64_spec(c);
    lemma_base64_injective(b, c);
}

/// A digit of the standard base64 alphabet: `A`-`Z`, `a`-`z`, `0`-`9`, `+`, `/`.
pub open spec fn is_b64_alphabet(c: char) -> bool {
    let v = c as u32;
    (65 <= v <= 90) || (97 <= v <= 122) || (48 <= v <= 57) || c == '+' || c == '/'
}

proof fn lemma_digit_in_alphabet(v: int)
    requires
        0 <= v < 64,
    ensures
        is_b64_alphabet(b64_digit(v)),
{
    lemma_b64_digit(v);
}

proof fn lemma_group_digits(x: int, y: int, z: int)
    requires
        0 <= x < 256,
        0 <= y < 256,
        0 <= z < 256,
    ensures
        is_b64_alphabet(b64_digit(x / 4)),
        is_b64_alphabet(b64_digit((x % 4) * 16 + y / 16)),
        is_b64_alphabet(b64_digit((x % 4) * 16)),
        is_b64_alphabet(b64_digit((y % 16) * 4 + z / 64)),
        is_b64_alphabet(b64_digit((y % 16) * 4)),
        is_b64_alphabet(b64_digit(z % 64)),
{
    lemma_digit_in_alphabet(x / 4);
    lemma_digit_in_alphabet((x % 4) * 16 + y / 16);
    lemma_digit_in_alphabet((x % 4) * 16);
    lemma_digit_in_alphabet((y % 16) * 4 + z / 64);
    lemma_digit_in_alphabet((y % 16) * 4);
    lemma_digit_in_alphabet(z % 64);
}

/// Base64 output has four characters for every started group of three bytes,
/// all from the standard alphabet except `=` padding, which can only stand in
/// the last two places.
pub proof fn law_base64_shape(b: Seq<u8>)
    ensures
        base64_spec(b).len() == 4 * ((b.len() + 2) / 3),
        forall|i: int|
            0 <= i < base64_spec(b).len() ==> is_b64_alphabet(#[trigger] base64_spec(b)[i])
                || base64_spec(b)[i] == '=',
        forall|i: int|
            0 <= i < base64_spec(b).len() - 2 ==> is_b64_alphabet(#[trigger] base64_spec(b)[i]),
    decreases b.len(),
{
    let s = base64_spec(b);
    let x = if b.len() > 0 { b[0] as int } else { 0 };
    let y = if b.len() > 1 { b[1] as int } else { 0 };
    let z = if b.len() > 2 { b[2] as int } else { 0 };
    if b.len() > 0 {
        lemma_group_digits(x, y, z);
    }
    if b.len() >= 3 {
        let rest = b.subrange(3, b.len() as int);
        law_base64_shape(rest);
        let g = seq![
            b64_digit(x / 4),
            b64_digit((x % 4) * 16 + y / 16),
            b64_digit((y % 16) * 4 + z / 64),
            b64_digit(z % 64),
        ];
        assert(s == g + base64_spec(rest));
        assert((b.len() + 2) / 3 == (rest.len() + 2) / 3 + 1);
        assert forall|i: int| 0 <= i < s.len() implies is_b64_alphabet(#[trigger] s[i]) || s[i]
            == '=' by {
            if i >= 4 {
                assert(s[i] == base64_spec(rest)[i - 4]);
            }
        }
        assert forall|i: int| 0 <= i < s.len() - 2 implies is_b64_alphabet(#[trigger] s[i]) by {
            if i >= 4 {
                assert(s[i] == base64_spec(rest)[i - 4]);
            }
        }
    }
}

} // verus!
