//! Child-process backend that runs `llama-mtmd-cli` (preferred) or `llama-cli`.

use vstd::prelude::*;

use crate::client::{InferenceRequest, InferenceResponse};
use crate::config::opt_view;
use crate::error::{prefixed, VisionError};
use crate::text::{
    chars_of, decimal, decimal_spec, join, join_spec, lines_of, lines_spec, push_char, starts_with,
    starts_with_spec, trim, trim_spec,
};
use crate::trusted::{path_file_name, path_file_name_spec};

verus! {

/// A located llama.cpp command-line binary with the model it runs.
#[derive(Debug, Clone)]
pub struct CliClient {
    binary: String,
    model: String,
    mmproj: Option<String>,
}

/// Whether a line of the binary's standard output is kept: banner lines that
/// start with `llama_`, `ggml_` or `main: ` are dropped.
pub open spec fn keeps_line(l: Seq<char>) -> bool {
    !starts_with_spec(l, "llama_"@) && !starts_with_spec(l, "ggml_"@) && !starts_with_spec(
        l,
        "main: "@,
    )
}

/// The model's answer in the binary's standard output: the lines that are not
/// banners, joined with `'\n'`, trimmed.
pub open spec fn strip_noise_spec(raw: Seq<char>) -> Seq<char> {
    trim_spec(join_spec(lines_spec(raw).filter(|l: Seq<char>| keeps_line(l)), "\n"@))
}

/// Up to the last three lines of `s`, last first (`s.lines().rev().take(3)`).
pub open spec fn last_lines(s: Seq<char>) -> Seq<Seq<char>> {
    let l = lines_spec(s);
    let k = if l.len() < 3 {
        l.len()
    } else {
        3
    };
    Seq::new(k, |i: int| l[l.len() - 1 - i])
}

/// `format!("{}", n)` for an `i32`.
pub open spec fn i32_text(n: i32) -> Seq<char> {
    if n < 0 {
        "-"@ + decimal_spec((-n) as nat)
    } else {
        decimal_spec(n as nat)
    }
}

/// `format!("{:?}", code)` for an exit code.
pub open spec fn exit_code_debug(code: Option<i32>) -> Seq<char> {
    match code {
        Some(n) => "Some("@ + i32_text(n) + ")"@,
        None => "None"@,
    }
}

/// The first path found on `$PATH`, in candidate order.
pub open spec fn first_found(found: Seq<Option<String>>) -> Option<Seq<char>>
    decreases found.len(),
{
    if found.len() == 0 {
        None
    } else if found[0] is Some {
        Some(found[0]->0@)
    } else {
        first_found(found.drop_first())
    }
}

/// The arguments the binary is run with.
pub open spec fn cli_args_spec(
    model: Seq<char>,
    mmproj: Option<Seq<char>>,
    image_a: Seq<char>,
    image_b: Option<Seq<char>>,
    max_tokens: u32,
    temperature: Seq<char>,
    prompt: Seq<char>,
) -> Seq<Seq<char>> {
    seq!["-m"@, model] + match mmproj {
        Some(m) => seq!["--mmproj"@, m],
        None => Seq::<Seq<char>>::empty(),
    } + seq!["--image"@, image_a] + match image_b {
        Some(b) => seq!["--image"@, b],
        None => Seq::<Seq<char>>::empty(),
    } + seq![
        "-n"@,
        decimal_spec(max_tokens as nat),
        "--temp"@,
        temperature,
        "-p"@,
        prompt,
    ]
}

/// How a run of the binary ends: the response's view (text, tokens, time, model)
/// or the text of the `Analysis` error.
pub open spec fn cli_outcome(
    model: Seq<char>,
    success: bool,
    code: Option<i32>,
    stdout: Seq<char>,
    stderr: Seq<char>,
    elapsed_ms: u64,
) -> Result<(Seq<char>, u32, u64, Seq<char>), Seq<char>> {
    if !success {
        Err(
            "llama-cli exit "@ + exit_code_debug(code) + ": "@ + join_spec(
                last_lines(stderr),
                " | "@,
            ),
        )
    } else {
        Ok(
            (
                strip_noise_spec(stdout),
                0u32,
                elapsed_ms,
                match path_file_name_spec(model) {
                    Some(n) => n,
                    None => "unknown"@,
                },
            ),
        )
    }
}

/// Drop common llama.cpp banner lines that some builds emit on stdout despite
/// logs going to stderr (e.g. `llama_model_loader: ...`).
pub fn strip_cli_noise(raw: &str) -> (r: String)
    ensures
        r@ == strip_noise_spec(raw@),
{
    let lines = lines_of(raw);
    let ghost ls = lines.deep_view();
    let ghost pred = |l: Seq<char>| keeps_line(l);
    let mut kept: Vec<String> = Vec::new();
    let mut i: usize = 0;
    while i < lines.len()
        invariant
            ls == lines.deep_view(),
            i <= ls.len(),
            pred == (|l: Seq<char>| keeps_line(l)),
            kept.deep_view() == ls.take(i as int).filter(pred),
        decreases lines.len() - i,
    {
        let cs = chars_of(lines[i].as_str());
        let keep = !starts_with(&cs, "llama_") && !starts_with(&cs, "ggml_") && !starts_with(
            &cs,
            "main: ",
        );
        proof {
            assert(ls.take(i + 1) =~= ls.take(i as int).push(ls[i as int]));
            ls.take(i as int).lemma_filter_push(ls[i as int], pred);
        }
        if keep {
            let ghost old_kept = kept.deep_view();
            kept.push(lines[i].clone());
            assert(kept.deep_view() =~= old_kept.push(ls[i as int]));
        }
        i = i + 1;
    }
    assert(ls.take(i as int) =~= ls);
    let joined = join(&kept, "\n");
    trim(joined.as_str())
}

/// `format!("{:?}", code)` for an exit code.
fn debug_exit_code(code: Option<i32>) -> (r: String)
    ensures
        r@ == exit_code_debug(code),
{
    match code {
        Some(n) => {
            let mut r = String::from_str("Some(");
            if n < 0 {
                push_char(&mut r, '-');
                let d = decimal((-(n as i64)) as u64);
                r.append(d.as_str());
            } else {
                let d = decimal(n as u64);
                r.append(d.as_str());
            }
            r.append(")");
            proof {
                reveal_strlit("-");
                if n < 0 {
                    assert(r@ =~= "Some("@ + i32_text(n) + ")"@);
                }
            }
            r
        },
        None => String::from_str("None"),
    }
}

impl CliClient {
    /// A client for `binary` running `model`, with an optional projector.
    pub fn new(binary: String, model: String, mmproj: Option<String>) -> (c: Self)
        ensures
            c.binary_path() == binary@,
            c.model_path() == model@,
            c.mmproj_path() == opt_view(mmproj),
    {
        CliClient { binary, model, mmproj }
    }

    /// Path of the binary.
    pub closed spec fn binary_path(&self) -> Seq<char> {
        self.binary@
    }

    /// Path of the model.
    pub closed spec fn model_path(&self) -> Seq<char> {
        self.model@
    }

    /// Path of the projector, if any.
    pub closed spec fn mmproj_path(&self) -> Option<Seq<char>> {
        opt_view(self.mmproj)
    }

    /// Path of the binary.
    pub fn binary(&self) -> (r: &str)
        ensures
            r@ == self.binary_path(),
    {
        self.binary.as_str()
    }

    /// Path of the model.
    pub fn model(&self) -> (r: &str)
        ensures
            r@ == self.model_path(),
    {
        self.model.as_str()
    }

    /// The binaries looked up on `$PATH`, in order of preference.
    pub fn binary_candidates() -> (r: [&'static str; 2])
        ensures
            r[0]@ == "llama-mtmd-cli"@,
            r[1]@ == "llama-cli"@,
    {
        ["llama-mtmd-cli", "llama-cli"]
    }

    /// The binary to run: the configured one when it exists, else the first
    /// candidate found on `$PATH` (`found` is in candidate order).
    pub fn choose_binary(
        configured: &Option<String>,
        configured_exists: bool,
        found: &Vec<Option<String>>,
    ) -> (r: Option<String>)
        ensures
            opt_view(r) == if configured is Some && configured_exists {
                opt_view(*configured)
            } else {
                first_found(found@)
            },
    {
        if configured.is_some() && configured_exists {
            return crate::config::clone_opt(configured);
        }
        let mut i: usize = 0;
        assert(found@.subrange(0, found@.len() as int) =~= found@);
        while i < found.len()
            invariant
                i <= found@.len(),
                !(configured is Some && configured_exists),
                first_found(found@) == first_found(found@.subrange(i as int, found@.len() as int)),
            decreases found.len() - i,
        {
            let ghost rest = found@.subrange(i as int, found@.len() as int);
            assert(rest.drop_first() =~= found@.subrange(i + 1, found@.len() as int));
            assert(rest[0] == found@[i as int]);
            if found[i].is_some() {
                assert(rest.len() > 0);
                assert(first_found(rest) == Some(found@[i as int]->0@));
                return crate::config::clone_opt(&found[i]);
            }
            i = i + 1;
        }
        assert(found@.subrange(i as int, found@.len() as int).len() == 0);
        None
    }

    /// The result of a health check, given whether the binary and the model exist.
    pub fn health_result(&self, binary_exists: bool, model_exists: bool) -> (r: Result<
        (),
        VisionError,
    >)
        ensures
            !binary_exists ==> (r matches Err(VisionError::BackendUnavailable(m)) && m@
                == "llama binary not found at "@ + self.binary_path()),
            binary_exists && !model_exists ==> (r matches Err(VisionError::ModelNotFound(m)) && m@
                == "model not found at "@ + self.model_path()),
            binary_exists && model_exists ==> r is Ok,
    {
        proof {
            reveal_strlit("");
        }
        if !binary_exists {
            return Err(
                VisionError::BackendUnavailable(
                    prefixed("llama binary not found at ", self.binary.as_str(), ""),
                ),
            );
        }
        if !model_exists {
            return Err(
                VisionError::ModelNotFound(prefixed("model not found at ", self.model.as_str(), "")),
            );
        }
        Ok(())
    }

    /// The arguments to run the binary with for `req`, reading the first image
    /// from `image_a` and, when the request has a second image, that one from
    /// `image_b`; `temperature` is the temperature as text.
    pub fn command_args(
        &self,
        req: &InferenceRequest,
        image_a: &str,
        image_b: &str,
        temperature: &str,
    ) -> (r: Vec<String>)
        ensures
            r.deep_view() == cli_args_spec(
                self.model_path(),
                self.mmproj_path(),
                image_a@,
                if req.image_b is Some {
                    Some(image_b@)
                } else {
                    None
                },
                req.max_tokens,
                temperature@,
                req.prompt@,
            ),
    {
        let mut r: Vec<String> = Vec::new();
        r.push(String::from_str("-m"));
        r.push(self.model.clone());
        let ghost s1 = r.deep_view();
        match &self.mmproj {
            Some(m) => {
                r.push(String::from_str("--mmproj"));
                r.push(m.clone());
            },
            None => {},
        }
        let ghost s2 = r.deep_view();
        r.push(String::from_str("--image"));
        r.push(String::from_str(image_a));
        let ghost s3 = r.deep_view();
        if req.image_b.is_some() {
            r.push(String::from_str("--image"));
            r.push(String::from_str(image_b));
        }
        let ghost s4 = r.deep_view();
        r.push(String::from_str("-n"));
        r.push(decimal(req.max_tokens as u64));
        r.push(String::from_str("--temp"));
        r.push(String::from_str(temperature));
        r.push(String::from_str("-p"));
        r.push(req.prompt.clone());
        proof {
            let a = seq!["-m"@, self.model_path()];
            let b = match self.mmproj_path() {
                Some(m) => seq!["--mmproj"@, m],
                None => Seq::<Seq<char>>::empty(),
            };
            let c = seq!["--image"@, image_a@];
            let d = if req.image_b is Some {
                seq!["--image"@, image_b@]
            } else {
                Seq::<Seq<char>>::empty()
            };
            assert(s1 =~= a);
            assert(s2 =~= a + b);
            assert(s3 =~= a + b + c);
            assert(s4 =~= a + b + c + d);
            assert(r.deep_view() =~= cli_args_spec(
                self.model_path(),
                self.mmproj_path(),
                image_a@,
                if req.image_b is Some {
                    Some(image_b@)
                } else {
                    None
                },
                req.max_tokens,
                temperature@,
                req.prompt@,
            ));
        }
        r
    }

    /// The name the response reports for the model: the model file's name, or
    /// `unknown`.
    pub fn model_name(&self) -> (r: String)
        ensures
            r@ == match path_file_name_spec(self.model_path()) {
                Some(n) => n,
                None => "unknown"@,
            },
    {
        match path_file_name(self.model.as_str()) {
            Some(n) => n,
            None => String::from_str("unknown"),
        }
    }

    /// The result of a run of the binary, given whether it exited successfully,
    /// its exit code, its standard output and error (as text), and the time taken.
    pub fn interpret_output(
        &self,
        success: bool,
        code: Option<i32>,
        stdout: &str,
        stderr: &str,
        elapsed_ms: u64,
    ) -> (r: Result<InferenceResponse, VisionError>)
        ensures
            (match cli_outcome(self.model_path(), success, code, stdout@, stderr@, elapsed_ms) {
                Ok((text, tokens, time_ms, model)) => r matches Ok(resp) && resp.text@ == text
                    && resp.tokens == tokens && resp.time_ms == time_ms && resp.model@ == model,
                Err(m) => r matches Err(VisionError::Analysis(t)) && t@ == m,
            }),
    {
        if !success {
            let lines = lines_of(stderr);
            let ghost l = lines.deep_view();
            let n = lines.len();
            let mut tail: Vec<String> = Vec::new();
            let mut k: usize = 0;
            while k < 3 && k < n
                invariant
                    n == l.len(),
                    l == lines.deep_view(),
                    k <= 3,
                    k <= n,
                    tail.deep_view() =~= Seq::new(k as nat, |i: int| l[l.len() - 1 - i]),
                decreases n - k,
            {
                let ghost old_tail = tail.deep_view();
                tail.push(lines[n - 1 - k].clone());
                assert(tail.deep_view() =~= old_tail.push(l[l.len() - 1 - k]));
                k = k + 1;
            }
            assert(tail.deep_view() =~= last_lines(stderr@));
            let joined = join(&tail, " | ");
            let dbg = debug_exit_code(code);
            let mut t = prefixed("llama-cli exit ", dbg.as_str(), ": ");
            t.append(joined.as_str());
            return Err(VisionError::Analysis(t));
        }
        let text = strip_cli_noise(stdout);
        Ok(InferenceResponse { text, tokens: 0, time_ms: elapsed_ms, model: self.model_name() })
    }
}

/// The binary runs the model given by `-m` first and the prompt given by `-p`
/// last, after `-n` with the token limit in decimal and `--temp` with the
/// temperature; in between stand the projector (when there is one) and one
/// `--image` per image, the first image first.
pub proof fn law_cli_args_order(
    model: Seq<char>,
    mmproj: Option<Seq<char>>,
    image_a: Seq<char>,
    image_b: Option<Seq<char>>,
    max_tokens: u32,
    temperature: Seq<char>,
    prompt: Seq<char>,
)
    ensures
        ({
            let r = cli_args_spec(model, mmproj, image_a, image_b, max_tokens, temperature, prompt);
            let k = if mmproj is Some { 2int } else { 0int };
            let n = r.len() as int;
            &&& n == 10 + k + (if image_b is Some { 2int } else { 0int })
            &&& r[0] == "-m"@ && r[1] == model
            &&& mmproj is Some ==> (r[2] == "--mmproj"@ && r[3] == mmproj->0)
            &&& r[2 + k] == "--image"@ && r[3 + k] == image_a
            &&& image_b is Some ==> (r[4 + k] == "--image"@ && r[5 + k] == image_b->0)
            &&& r[n - 6] == "-n"@ && r[n - 5] == decimal_spec(max_tokens as nat)
            &&& r[n - 4] == "--temp"@ && r[n - 3] == temperature
            &&& r[n - 2] == "-p"@ && r[n - 1] == prompt
        }),
{
    let r = cli_args_spec(model, mmproj, image_a, image_b, max_tokens, temperature, prompt);
    let a = seq!["-m"@, model];
    let b = match mmproj {
        Some(m) => seq!["--mmproj"@, m],
        None => Seq::<Seq<char>>::empty(),
    };
    let c = seq!["--image"@, image_a];
    let d = match image_b {
        Some(x) => seq!["--image"@, x],
        None => Seq::<Seq<char>>::empty(),
    };
    let t = seq![
        "-n"@,
        decimal_spec(max_tokens as nat),
        "--temp"@,
        temperature,
        "-p"@,
        prompt,
    ];
    assert(r == a + b + c + d + t);
    let k = b.len() as int;
    let j = d.len() as int;
    assert((a + b + c + d + t) =~= a + b + c + d + t);
    assert forall|i: int| 0 <= i < 2 implies (a + b + c + d + t)[i] == a[i] by {}
    assert forall|i: int| 0 <= i < k implies (a + b + c + d + t)[2 + i] == b[i] by {}
    assert forall|i: int| 0 <= i < 2 implies (a + b + c + d + t)[2 + k + i] == c[i] by {}
    assert forall|i: int| 0 <= i < j implies (a + b + c + d + t)[4 + k + i] == d[i] by {}
    assert forall|i: int| 0 <= i < 6 implies (a + b + c + d + t)[4 + k + j + i] == t[i] by {}
}

} // verus!
