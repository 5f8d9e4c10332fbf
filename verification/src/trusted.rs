//! Every call into code that Verus does not read: outside crates and the parts of
//! std that vstd leaves unspecified. Each item states what the callers rely on.

use vstd::prelude::*;

verus! {

/// `std::io::Error`, carried inside `VisionError::Io`.
#[verifier::external_type_specification]
#[verifier::external_body]
pub struct ExIoError(std::io::Error);

/// `reqwest::Error`, carried inside `VisionError::Http`.
#[verifier::external_type_specification]
#[verifier::external_body]
pub struct ExReqwestError(reqwest::Error);

/// `serde_json::Error`, carried inside `VisionError::Json`.
#[verifier::external_type_specification]
#[verifier::external_body]
pub struct ExJsonError(serde_json::Error);

/// `reqwest::Client`, the connection pool held by a `ServerClient`.
#[verifier::external_type_specification]
#[verifier::external_body]
pub struct ExReqwestClient(reqwest::Client);

/// `Display` of a `std::io::Error`. The text comes from the operating system's
/// error strings, so nothing is claimed of it.
#[verifier::external_body]
pub(crate) fn io_error_text(e: &std::io::Error) -> String {
    e.to_string()
}

/// `Display` of a `reqwest::Error`. The value is opaque here, so nothing is
/// claimed of the text.
#[verifier::external_body]
pub(crate) fn http_error_text(e: &reqwest::Error) -> String {
    e.to_string()
}

/// `Display` of a `serde_json::Error`. The value is opaque here, so nothing is
/// claimed of the text.
#[verifier::external_body]
pub(crate) fn json_error_text(e: &serde_json::Error) -> String {
    e.to_string()
}

/// Digit of the standard base64 alphabet (RFC 4648, table 1) for `v < 64`.
pub open spec fn b64_digit(v: int) -> char {
    if v < 26 {
        (65 + v) as char
    } else if v < 52 {
        (97 + v - 26) as char
    } else if v < 62 {
        (48 + v - 52) as char
    } else if v == 62 {
        '+'
    } else {
        '/'
    }
}

/// Standard base64 with `=` padding (RFC 4648, section 4): each group of three
/// bytes becomes four digits; a final group of one or two bytes is padded.
pub open spec fn base64_spec(b: Seq<u8>) -> Seq<char>
    decreases b.len(),
{
    let x = if b.len() > 0 { b[0] as int } else { 0 };
    let y = if b.len() > 1 { b[1] as int } else { 0 };
    let z = if b.len() > 2 { b[2] as int } else { 0 };
    if b.len() == 0 {
        Seq::<char>::empty()
    } else if b.len() == 1 {
        seq![b64_digit(x / 4), b64_digit((x % 4) * 16), '=', '=']
    } else if b.len() == 2 {
        seq![b64_digit(x / 4), b64_digit((x % 4) * 16 + y / 16), b64_digit((y % 16) * 4), '=']
    } else {
        seq![
            b64_digit(x / 4),
            b64_digit((x % 4) * 16 + y / 16),
            b64_digit((y % 16) * 4 + z / 64),
            b64_digit(z % 64),
        ] + base64_spec(b.subrange(3, b.len() as int))
    }
}

/// `base64::engine::general_purpose::STANDARD.encode`: standard base64 with
/// padding, as `base64_spec` states. It panics only when the encoded length
/// overflows `usize`, which the bound on the input excludes.
#[verifier::external_body]
pub(crate) fn base64_encode(bytes: &[u8]) -> (r: String)
    requires
        bytes@.len() <= usize::MAX / 2,
    ensures
        r@ == base64_spec(bytes@),
{
    base64::Engine::encode(&base64::engine::general_purpose::STANDARD, bytes)
}

/// Whether `s` is the standard base64 encoding of some bytes.
pub open spec fn is_base64_text(s: Seq<char>) -> bool {
    exists|b: Seq<u8>| s == #[trigger] base64_spec(b)
}

/// The `Display` text of the `DecodeError` that decoding `input` fails with.
pub uninterp spec fn base64_error_text(input: Seq<char>) -> Seq<char>;

/// `base64::engine::general_purpose::STANDARD.decode` of the bytes of `input`.
/// The engine's configuration requires canonical padding and rejects trailing
/// bits (`decode_suffix` with `RequireCanonical` and
/// `decode_allow_trailing_bits: false`), so decoding succeeds exactly on texts
/// that are the standard encoding of some bytes, and gives those bytes. The
/// error's text is named `base64_error_text`.
#[verifier::external_body]
pub(crate) fn base64_decode(input: &str) -> (r: Result<Vec<u8>, String>)
    ensures
        (r is Ok) == is_base64_text(input@),
        r is Ok ==> input@ == base64_spec(r->Ok_0@),
        r is Err ==> r->Err_0@ == base64_error_text(input@),
{
    match base64::Engine::decode(&base64::engine::general_purpose::STANDARD, input) {
        Ok(v) => Ok(v),
        Err(e) => Err(e.to_string()),
    }
}

/// Lowercase hexadecimal digit for `v < 16`.
pub open spec fn hex_lower(v: int) -> char {
    if v < 10 {
        (48 + v) as char
    } else {
        (97 + v - 10) as char
    }
}

/// How `serde_json` writes one character inside a string literal: `"` and `\`
/// are escaped, backspace, tab, line feed, form feed and carriage return get
/// their short escapes, other characters below U+0020 become `\u00XX`, and
/// every other character is written as it is.
pub open spec fn json_escape_char(c: char) -> Seq<char> {
    let v = c as u32;
    if c == '"' {
        seq!['\\', '"']
    } else if c == '\\' {
        seq!['\\', '\\']
    } else if v == 8 {
        seq!['\\', 'b']
    } else if v == 9 {
        seq!['\\', 't']
    } else if v == 10 {
        seq!['\\', 'n']
    } else if v == 12 {
        seq!['\\', 'f']
    } else if v == 13 {
        seq!['\\', 'r']
    } else if v < 32 {
        seq!['\\', 'u', '0', '0', hex_lower((v / 16) as int), hex_lower((v % 16) as int)]
    } else {
        seq![c]
    }
}

/// The escaped characters of `s`, in order.
pub open spec fn json_escape(s: Seq<char>) -> Seq<char>
    decreases s.len(),
{
    if s.len() == 0 {
        Seq::<char>::empty()
    } else {
        json_escape(s.drop_last()) + json_escape_char(s.last())
    }
}

/// A JSON string literal holding `s`, as `serde_json` writes it.
pub open spec fn json_string_spec(s: Seq<char>) -> Seq<char> {
    seq!['"'] + json_escape(s) + seq!['"']
}

/// `serde_json::to_string` of a `&str`: the JSON string literal that
/// `json_string_spec` states (serde_json's `format_escaped_str` with its
/// `ESCAPE` table). Serialising a `str` into memory cannot fail.
#[verifier::external_body]
pub(crate) fn json_string(s: &str) -> (r: String)
    ensures
        r@ == json_string_spec(s@),
{
    serde_json::to_string(s).unwrap_or_default()
}

/// What `serde_json` finds in `body` at the JSON pointer `pointer`, when the body
/// is JSON and holds a string there.
pub uninterp spec fn json_pointer_str(body: Seq<char>, pointer: Seq<char>) -> Option<Seq<char>>;

/// `serde_json::from_str::<serde_json::Value>(body)`, then `pointer(pointer)` and
/// `as_str`: the string at `pointer`, when the body is JSON and holds a string
/// there. The result is named `json_pointer_str`.
#[verifier::external_body]
pub(crate) fn json_str_at(body: &str, pointer: &str) -> (r: Option<String>)
    ensures
        (match r {
            Some(m) => json_pointer_str(body@, pointer@) == Some(m@),
            None => json_pointer_str(body@, pointer@) is None,
        }),
{
    let v: serde_json::Value = serde_json::from_str(body).ok()?;
    let m = v.pointer(pointer)?.as_str()?;
    Some(m.to_string())
}

/// `reqwest::Client::builder().pool_idle_timeout(idle_timeout_secs s).build()`.
/// Building fails when the TLS backend cannot start, and the error is handed
/// back. Whether it fails depends on the machine, so nothing is claimed of it.
#[verifier::external_body]
pub(crate) fn new_http_client(idle_timeout_secs: u64) -> Result<reqwest::Client, reqwest::Error> {
    reqwest::Client::builder()
        .pool_idle_timeout(std::time::Duration::from_secs(idle_timeout_secs))
        .build()
}

/// `directories::BaseDirs::new()` and `home_dir()`: the user's home directory.
/// It comes from the environment (`$HOME` on Unix), so nothing is claimed of it.
#[verifier::external_body]
pub(crate) fn home_dir() -> Option<String> {
    let d = directories::BaseDirs::new()?;
    Some(d.home_dir().to_string_lossy().into_owned())
}

/// `Path::join` on Unix, as text: an absolute `name` (one that starts with `/`)
/// replaces `base`; otherwise `name` is appended, after a `/` that is inserted
/// when `base` is not empty and does not already end in one.
pub open spec fn path_join_spec(base: Seq<char>, name: Seq<char>) -> Seq<char> {
    if name.len() > 0 && name[0] == '/' {
        name
    } else if base.len() > 0 && base.last() != '/' {
        base + seq!['/'] + name
    } else {
        base + name
    }
}

/// `Path::new(base).join(name)`, as text: what `path_join_spec` states
/// (`PathBuf::push`). Both inputs are UTF-8, so the lossy conversion of the
/// result loses nothing.
#[verifier::external_body]
pub(crate) fn path_join(base: &str, name: &str) -> (r: String)
    ensures
        r@ == path_join_spec(base@, name@),
{
    std::path::Path::new(base).join(name).to_string_lossy().into_owned()
}

/// What `std::path::Path::parent` gives for `p`.
pub uninterp spec fn path_parent_spec(p: Seq<char>) -> Option<Seq<char>>;

/// `Path::new(p).parent()`, as text. The result is named `path_parent_spec`.
#[verifier::external_body]
pub(crate) fn path_parent(p: &str) -> (r: Option<String>)
    ensures
        (match r {
            Some(s) => path_parent_spec(p@) == Some(s@),
            None => path_parent_spec(p@) is None,
        }),
{
    let q = std::path::Path::new(p).parent()?;
    Some(q.to_string_lossy().into_owned())
}

/// What `std::path::Path::file_stem` gives for `p`.
pub uninterp spec fn path_file_stem_spec(p: Seq<char>) -> Option<Seq<char>>;

/// `Path::new(p).file_stem()`, as text. The result is named `path_file_stem_spec`.
#[verifier::external_body]
pub(crate) fn path_file_stem(p: &str) -> (r: Option<String>)
    ensures
        (match r {
            Some(s) => path_file_stem_spec(p@) == Some(s@),
            None => path_file_stem_spec(p@) is None,
        }),
{
    let q = std::path::Path::new(p).file_stem()?;
    Some(q.to_string_lossy().into_owned())
}

/// What `std::path::Path::file_name` gives for `p`.
pub uninterp spec fn path_file_name_spec(p: Seq<char>) -> Option<Seq<char>>;

/// `Path::new(p).file_name()`, as text. The result is named `path_file_name_spec`.
#[verifier::external_body]
pub(crate) fn path_file_name(p: &str) -> (r: Option<String>)
    ensures
        (match r {
            Some(s) => path_file_name_spec(p@) == Some(s@),
            None => path_file_name_spec(p@) is None,
        }),
{
    let q = std::path::Path::new(p).file_name()?;
    Some(q.to_string_lossy().into_owned())
}

/// What `format!("{:?}", s)` gives for a string `s`.
pub uninterp spec fn str_debug_spec(s: Seq<char>) -> Seq<char>;

/// `<str as Debug>::fmt`: `s` quoted, with escapes. The result is named `str_debug_spec`.
#[verifier::external_body]
pub(crate) fn str_debug(s: &str) -> (r: String)
    ensures
        r@ == str_debug_spec(s@),
{
    format!("{:?}", s)
}

} // verus!
