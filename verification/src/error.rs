//! The crate's error type and the exit codes the command line reports.

use vstd::prelude::*;

use crate::text::{decimal, decimal_spec};
use crate::trusted::{http_error_text, io_error_text, json_error_text};

verus! {

/// Every failure the tool reports.
#[derive(Debug)]
pub enum VisionError {
    BackendUnavailable(String),
    ModelNotFound(String),
    Analysis(String),
    Io(std::io::Error),
    Http(reqwest::Error),
    Json(serde_json::Error),
    PresetNotFound(String),
    InvalidArgs(String),
    Timeout(u64),
    Daemon(String),
    PayloadTooLarge(usize, usize),
    ImageTooLarge(u64, u64),
}

/// Exit code of an error: 2 when the backend or the model is not available,
/// 1 for every other failure.
pub open spec fn exit_code_of(e: VisionError) -> i32 {
    match e {
        VisionError::BackendUnavailable(_) | VisionError::ModelNotFound(_) => 2,
        _ => 1,
    }
}

/// The text an error shows, for the variants whose text this crate composes.
/// `Io`, `Http` and `Json` show a prefix and the outside error's own text.
pub open spec fn message_of(e: VisionError) -> Option<Seq<char>> {
    match e {
        VisionError::BackendUnavailable(s) => Some("backend unavailable: "@ + s@),
        VisionError::ModelNotFound(s) => Some("model not found: "@ + s@),
        VisionError::Analysis(s) => Some("analysis failed: "@ + s@),
        VisionError::PresetNotFound(s) => Some("preset '"@ + s@ + "' not found"@),
        VisionError::InvalidArgs(s) => Some("invalid arguments: "@ + s@),
        VisionError::Timeout(ms) => Some("timeout after "@ + decimal_spec(ms as nat) + " ms"@),
        VisionError::Daemon(s) => Some("daemon: "@ + s@),
        VisionError::PayloadTooLarge(n, limit) => Some(
            "payload too large: "@ + decimal_spec(n as nat) + " bytes (limit "@ + decimal_spec(
                limit as nat,
            ) + " bytes)"@,
        ),
        VisionError::ImageTooLarge(n, limit) => Some(
            "image too large: "@ + decimal_spec(n as nat) + " bytes (limit "@ + decimal_spec(
                limit as nat,
            ) + " bytes)"@,
        ),
        _ => None,
    }
}

/// The prefix shown before the outside error's text in `Io`, `Http` and `Json`.
pub open spec fn outside_prefix(e: VisionError) -> Seq<char> {
    match e {
        VisionError::Io(_) => "io: "@,
        VisionError::Http(_) => "http: "@,
        _ => "json: "@,
    }
}

impl VisionError {
    /// Maps error variants to CLI exit codes: 0 ok, 1 analysis error,
    /// 2 backend or model not available.
    pub fn exit_code(&self) -> (c: i32)
        ensures
            c == exit_code_of(*self),
    {
        match self {
            VisionError::BackendUnavailable(_) | VisionError::ModelNotFound(_) => 2,
            _ => 1,
        }
    }

    /// The text of the error, as the command line prints it.
    pub fn message(&self) -> (m: String)
        ensures
            (match message_of(*self) {
                Some(t) => m@ == t,
                None => m@.len() >= outside_prefix(*self).len() && m@.subrange(
                    0,
                    outside_prefix(*self).len() as int,
                ) == outside_prefix(*self),
            }),
    {
        proof {
            reveal_strlit("");
        }
        let m = match self {
            VisionError::BackendUnavailable(s) => prefixed("backend unavailable: ", s.as_str(), ""),
            VisionError::ModelNotFound(s) => prefixed("model not found: ", s.as_str(), ""),
            VisionError::Analysis(s) => prefixed("analysis failed: ", s.as_str(), ""),
            VisionError::PresetNotFound(s) => prefixed("preset '", s.as_str(), "' not found"),
            VisionError::InvalidArgs(s) => prefixed("invalid arguments: ", s.as_str(), ""),
            VisionError::Timeout(ms) => {
                let d = decimal(*ms);
                prefixed("timeout after ", d.as_str(), " ms")
            },
            VisionError::Daemon(s) => prefixed("daemon: ", s.as_str(), ""),
            VisionError::PayloadTooLarge(n, limit) => {
                too_large("payload too large: ", *n as u64, *limit as u64)
            },
            VisionError::ImageTooLarge(n, limit) => too_large("image too large: ", *n, *limit),
            VisionError::Io(e) => {
                let t = io_error_text(e);
                prefixed("io: ", t.as_str(), "")
            },
            VisionError::Http(e) => {
                let t = http_error_text(e);
                prefixed("http: ", t.as_str(), "")
            },
            VisionError::Json(e) => {
                let t = json_error_text(e);
                prefixed("json: ", t.as_str(), "")
            },
        };
        proof {
            let p = outside_prefix(*self);
            if message_of(*self) is None {
                assert(m@.subrange(0, p.len() as int) =~= p);
            }
        }
        m
    }
}

/// `a + b + c` as a new string.
pub fn prefixed(a: &str, b: &str, c: &str) -> (r: String)
    ensures
        r@ == a@ + b@ + c@,
{
    let mut r = String::from_str(a);
    r.append(b);
    r.append(c);
    r
}

/// `"{what}{n} bytes (limit {limit} bytes)"`.
fn too_large(what: &str, n: u64, limit: u64) -> (r: String)
    ensures
        r@ == what@ + decimal_spec(n as nat) + " bytes (limit "@ + decimal_spec(limit as nat)
            + " bytes)"@,
{
    let a = decimal(n);
    let b = decimal(limit);
    let mut r = String::from_str(what);
    r.append(a.as_str());
    r.append(" bytes (limit ");
    r.append(b.as_str());
    r.append(" bytes)");
    r
}

/// Exit codes: 2 exactly when the backend or the model is not available, 1 for
/// every other failure; never 0, which is success.
pub proof fn law_exit_codes(e: VisionError)
    ensures
        (exit_code_of(e) == 2) <==> (e is BackendUnavailable || e is ModelNotFound),
        (exit_code_of(e) == 1) <==> !(e is BackendUnavailable || e is ModelNotFound),
        exit_code_of(e) != 0,
{
}

} // verus!
