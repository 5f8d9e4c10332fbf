//! Backend autodetect: prefer `llama-server` if reachable, else `llama-cli`.

use vstd::prelude::*;

use crate::client::cli::CliClient;
use crate::client::server::{trim_slashes, ServerClient};
use crate::client::{no_model_message, resolve_model_path, Backend};
use crate::config::{clone_opt, opt_view, BackendPreference, EffectiveConfig};
use crate::error::{prefixed, VisionError};

verus! {

/// The backend a selection ends with, or the error it fails with.
pub enum Selection {
    /// `llama-server` at the given address.
    Server(Seq<char>),
    /// The binary, model and projector of a `llama-cli` run.
    Cli(Seq<char>, Seq<char>, Option<Seq<char>>),
    /// `BackendUnavailable` with the given text.
    Unavailable(Seq<char>),
    /// `ModelNotFound` with the given text.
    NoModel(Seq<char>),
}

/// The text given when no binary was found.
pub open spec fn no_binary_message() -> Seq<char> {
    "no llama-cli/llama-mtmd-cli in PATH (set VISION_LLAMA_BIN)"@
}

/// The command-line backend: it needs a binary and a model.
pub open spec fn cli_selection(cfg: EffectiveConfig, located: Option<String>) -> Selection {
    match located {
        None => Selection::Unavailable(no_binary_message()),
        Some(bin) => match cfg.model {
            None => Selection::NoModel(no_model_message()),
            Some(m) => Selection::Cli(bin@, m@, opt_view(cfg.mmproj)),
        },
    }
}

/// Backend selection: a forced server must answer its probe; a forced CLI must be
/// found; `auto` takes the server when it answers, else the CLI, and reports both
/// missing as unavailable.
pub open spec fn selection(cfg: EffectiveConfig, server_up: bool, located: Option<String>) -> Selection {
    let url = cfg.llama_server_url@;
    match cfg.backend {
        BackendPreference::Server => if server_up {
            Selection::Server(trim_slashes(url))
        } else {
            Selection::Unavailable("llama-server not reachable at "@ + url)
        },
        BackendPreference::Cli => cli_selection(cfg, located),
        BackendPreference::Auto => if server_up {
            Selection::Server(trim_slashes(url))
        } else {
            match cli_selection(cfg, located) {
                Selection::Cli(b, m, p) => Selection::Cli(b, m, p),
                _ => Selection::Unavailable(
                    "neither llama-server (probed "@ + url
                        + ") nor a local llama-cli binary is available; install llama.cpp or set --backend / VISION_LLAMA_BIN"@,
                ),
            }
        },
    }
}

/// Whether `r` is what `s` describes. A server client whose connection pool
/// cannot be built (the TLS backend did not start) ends in an `Http` error.
pub open spec fn selected(r: Result<Backend, VisionError>, s: Selection) -> bool {
    match s {
        Selection::Server(url) => (r matches Ok(Backend::Server(c)) && c.base_url_view() == url)
            || r matches Err(VisionError::Http(_)),
        Selection::Cli(b, m, p) => r matches Ok(Backend::Cli(c)) && c.binary_path() == b
            && c.model_path() == m && c.mmproj_path() == p,
        Selection::Unavailable(t) => r matches Err(VisionError::BackendUnavailable(x)) && x@ == t,
        Selection::NoModel(t) => r matches Err(VisionError::ModelNotFound(x)) && x@ == t,
    }
}

/// Whether the selection for this preference reads the server probe.
pub open spec fn probes_server_spec(p: BackendPreference) -> bool {
    p != BackendPreference::Cli
}

/// Whether selecting a backend for this preference probes the server first.
pub fn probes_server(p: BackendPreference) -> (b: bool)
    ensures
        b == probes_server_spec(p),
{
    match p {
        BackendPreference::Cli => false,
        _ => true,
    }
}

fn server_backend(cfg: &EffectiveConfig) -> (r: Result<Backend, VisionError>)
    ensures
        selected(r, Selection::Server(trim_slashes(cfg.llama_server_url@))),
{
    match ServerClient::new(cfg.llama_server_url.as_str()) {
        Ok(c) => Ok(Backend::Server(c)),
        Err(e) => Err(e),
    }
}

fn cli(cfg: &EffectiveConfig, located: Option<String>) -> (r: Result<Backend, VisionError>)
    ensures
        selected(r, cli_selection(*cfg, located)),
{
    let bin = match located {
        Some(b) => b,
        None => {
            return Err(
                VisionError::BackendUnavailable(
                    String::from_str("no llama-cli/llama-mtmd-cli in PATH (set VISION_LLAMA_BIN)"),
                ),
            );
        },
    };
    let model = match resolve_model_path(cfg) {
        Ok(m) => m,
        Err(e) => {
            return Err(e);
        },
    };
    Ok(Backend::Cli(CliClient::new(bin, model, clone_opt(&cfg.mmproj))))
}

/// Selects the backend, given whether the server answered its probe (read only
/// when the preference probes) and the binary located for the CLI backend.
pub fn select(cfg: &EffectiveConfig, server_up: bool, located: Option<String>) -> (r: Result<
    Backend,
    VisionError,
>)
    ensures
        selected(r, selection(*cfg, server_up, located)),
{
    proof {
        reveal_strlit("");
    }
    match cfg.backend {
        BackendPreference::Server => {
            if !server_up {
                return Err(
                    VisionError::BackendUnavailable(
                        prefixed("llama-server not reachable at ", cfg.llama_server_url.as_str(), ""),
                    ),
                );
            }
            server_backend(cfg)
        },
        BackendPreference::Cli => cli(cfg, located),
        BackendPreference::Auto => {
            if server_up {
                server_backend(cfg)
            } else {
                match cli(cfg, located) {
                    Ok(b) => Ok(b),
                    Err(_) => Err(
                        VisionError::BackendUnavailable(
                            prefixed(
                                "neither llama-server (probed ",
                                cfg.llama_server_url.as_str(),
                                ") nor a local llama-cli binary is available; install llama.cpp or set --backend / VISION_LLAMA_BIN",
                            ),
                        ),
                    ),
                }
            }
        },
    }
}

/// The server is probed exactly when its answer can change the selection: for
/// `server` and `auto` a reachable server gives another backend (or error) than an
/// unreachable one, while `cli` never looks at it.
pub proof fn law_probe_exactly_when_it_matters(cfg: EffectiveConfig, located: Option<String>)
    ensures
        probes_server_spec(cfg.backend) <==> selection(cfg, true, located) != selection(
            cfg,
            false,
            located,
        ),
{
}

/// The order of backends: a reachable server is taken for `server` and `auto`; a
/// forced server never falls back to the binary, and a forced binary never uses
/// the server; `auto` without a server takes the binary when one was found and a
/// model is configured; otherwise no backend is available.
pub proof fn law_backend_order(cfg: EffectiveConfig, server_up: bool, located: Option<String>)
    ensures
        cfg.backend != BackendPreference::Cli && server_up ==> selection(cfg, server_up, located)
            is Server,
        cfg.backend == BackendPreference::Server ==> !(selection(cfg, server_up, located) is Cli),
        cfg.backend == BackendPreference::Cli ==> !(selection(cfg, server_up, located) is Server),
        cfg.backend == BackendPreference::Auto && !server_up && located is Some && cfg.model is Some
            ==> selection(cfg, server_up, located) is Cli,
        cfg.backend != BackendPreference::Cli && !server_up && !(located is Some
            && cfg.model is Some) ==> selection(cfg, server_up, located) is Unavailable,
        cfg.backend == BackendPreference::Server && !server_up ==> selection(
            cfg,
            server_up,
            located,
        ) is Unavailable,
{
}

} // verus!
