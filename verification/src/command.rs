//! What one invocation of the tool decides: which preset, prompt and format an
//! analysis uses, what it sends to a warm daemon, when it falls back to a cold
//! run, and what it reports.

use vstd::prelude::*;

use crate::cli::Args;
use crate::client::{
    base64_decode_spec, encode_b64, law_base64_roundtrip, request_view, InferenceRequest,
    InferenceResponse,
};
use crate::config::{parse_output_format, clone_opt, env_value, format_name, format_of, opt_view, EffectiveConfig, OutputFormat};
use crate::daemon::{handled, ConnectionStep};
use crate::error::{exit_code_of, prefixed, VisionError};
use crate::presets::{Preset, PresetStore};
use crate::socket::{SocketRequest, SocketResponse};
use crate::text::lower_spec;
use crate::trusted::base64_spec;

verus! {

/// Maximum image file size accepted from disk (32 MiB).
pub const MAX_IMAGE_BYTES: u64 = 33554432;

/// What an analysis runs with, once the arguments and presets are resolved.
#[derive(Debug, Clone)]
pub struct InferencePlan {
    pub image_path: String,
    pub prompt: String,
    pub format: OutputFormat,
    pub two_images: bool,
}

/// Why an analysis cannot be planned.
pub enum PlanFailure {
    /// No image path was given.
    NoImage,
    /// The named preset does not exist.
    NoPreset(Seq<char>),
    /// Neither a preset nor a prompt was given.
    NoPrompt,
}

/// How an analysis is planned: the image is required; a named preset must exist
/// and then supplies the prompt (the positional prompt is ignored) and, when it
/// names a known one, the output format; without a preset the prompt is required
/// and the configured format is used. A preset may ask for two images.
pub open spec fn planned(
    args: Args,
    cfg: EffectiveConfig,
    presets: Map<Seq<char>, Preset>,
) -> Result<(Seq<char>, Seq<char>, OutputFormat, bool), PlanFailure> {
    match args.image {
        None => Err(PlanFailure::NoImage),
        Some(image) => match args.preset {
            Some(name) => if !presets.contains_key(name@) {
                Err(PlanFailure::NoPreset(name@))
            } else {
                let p = presets[name@];
                Ok(
                    (
                        image@,
                        p.prompt@,
                        match format_of(opt_view(p.format)) {
                            Some(f) => f,
                            None => cfg.format,
                        },
                        p.two_images,
                    ),
                )
            },
            None => match args.prompt {
                Some(prompt) => Ok((image@, prompt@, cfg.format, false)),
                None => Err(PlanFailure::NoPrompt),
            },
        },
    }
}

/// Whether `r` is what planning gives.
pub open spec fn plan_matches(
    r: Result<InferencePlan, VisionError>,
    p: Result<(Seq<char>, Seq<char>, OutputFormat, bool), PlanFailure>,
) -> bool {
    match p {
        Ok((image, prompt, format, two)) => r matches Ok(plan) && plan.image_path@ == image
            && plan.prompt@ == prompt && plan.format == format && plan.two_images == two,
        Err(PlanFailure::NoImage) => r matches Err(VisionError::InvalidArgs(m)) && m@
            == "image path required"@,
        Err(PlanFailure::NoPreset(n)) => r matches Err(VisionError::PresetNotFound(m)) && m@ == n,
        Err(PlanFailure::NoPrompt) => r matches Err(VisionError::InvalidArgs(m)) && m@
            == "prompt or --preset required"@,
    }
}

/// The image path, which an analysis requires.
pub fn image_path_of(args: &Args) -> (r: Result<String, VisionError>)
    ensures
        (match args.image {
            Some(p) => r matches Ok(s) && s@ == p@,
            None => r matches Err(VisionError::InvalidArgs(m)) && m@ == "image path required"@,
        }),
{
    match &args.image {
        Some(p) => Ok(p.clone()),
        None => Err(VisionError::InvalidArgs(String::from_str("image path required"))),
    }
}

/// Plans an analysis from the arguments, the configuration and the presets.
pub fn plan_inference(args: &Args, cfg: &EffectiveConfig, store: &PresetStore) -> (r: Result<
    InferencePlan,
    VisionError,
>)
    ensures
        plan_matches(r, planned(*args, *cfg, store@)),
{
    let image_path = match image_path_of(args) {
        Ok(p) => p,
        Err(e) => {
            return Err(e);
        },
    };
    match &args.preset {
        Some(name) => {
            let p = match store.get(name.as_str()) {
                Ok(p) => p,
                Err(e) => {
                    return Err(e);
                },
            };
            let format = match p.output_format() {
                Some(f) => f,
                None => cfg.format,
            };
            Ok(
                InferencePlan {
                    image_path,
                    prompt: p.prompt.clone(),
                    format,
                    two_images: p.two_images,
                },
            )
        },
        None => match &args.prompt {
            Some(prompt) => Ok(
                InferencePlan {
                    image_path,
                    prompt: prompt.clone(),
                    format: cfg.format,
                    two_images: false,
                },
            ),
            None => Err(VisionError::InvalidArgs(String::from_str("prompt or --preset required"))),
        },
    }
}

/// An image file larger than `MAX_IMAGE_BYTES` is refused before it is read.
pub fn check_image_size(len: u64) -> (r: Result<(), VisionError>)
    ensures
        len <= MAX_IMAGE_BYTES ==> r is Ok,
        len > MAX_IMAGE_BYTES ==> (r matches Err(VisionError::ImageTooLarge(n, limit)) && n
            == len && limit == MAX_IMAGE_BYTES),
{
    if len > MAX_IMAGE_BYTES {
        Err(VisionError::ImageTooLarge(len, MAX_IMAGE_BYTES))
    } else {
        Ok(())
    }
}

/// A preset that compares two images needs the second one.
pub fn check_two_images(plan: &InferencePlan, has_image_b: bool) -> (r: Result<(), VisionError>)
    ensures
        plan.two_images && !has_image_b ==> (r matches Err(VisionError::InvalidArgs(m)) && m@
            == "this preset requires two images: provide --image-b"@),
        !(plan.two_images && !has_image_b) ==> r is Ok,
{
    if plan.two_images && !has_image_b {
        Err(
            VisionError::InvalidArgs(
                String::from_str("this preset requires two images: provide --image-b"),
            ),
        )
    } else {
        Ok(())
    }
}

/// The inference request for a planned analysis and the images read.
pub fn build_request(
    plan: &InferencePlan,
    cfg: &EffectiveConfig,
    image: Vec<u8>,
    image_b: Option<Vec<u8>>,
) -> (r: InferenceRequest)
    ensures
        request_view(r) == (
            plan.prompt@,
            image@,
            match image_b {
                Some(b) => Some(b@),
                None => None,
            },
            cfg.max_tokens,
            cfg.temperature_bits,
            cfg.timeout_ms,
        ),
{
    InferenceRequest {
        prompt: plan.prompt.clone(),
        image,
        image_b,
        max_tokens: cfg.max_tokens,
        temperature_bits: cfg.temperature_bits,
        timeout_ms: cfg.timeout_ms,
    }
}

/// Whether `s` carries `req` to the daemon: the prompt and numbers as they are,
/// the images in standard base64, the output format by name and the preset named.
pub open spec fn carries(
    s: SocketRequest,
    req: InferenceRequest,
    format: OutputFormat,
    preset: Option<String>,
) -> bool {
    s matches SocketRequest::Infer {
        prompt,
        image,
        image_b,
        max_tokens,
        temperature_bits,
        timeout_ms,
        format: f,
        preset: p,
    } && prompt@ == req.prompt@ && image@ == base64_spec(req.image@) && opt_view(image_b) == (
    match req.image_b {
        Some(b) => Some(base64_spec(b@)),
        None => None,
    }) && max_tokens == req.max_tokens && temperature_bits == req.temperature_bits && timeout_ms
        == req.timeout_ms && f@ == format_name(format) && opt_view(p) == opt_view(preset)
}

/// The request sent to a warm daemon for `req`.
pub fn socket_request(req: &InferenceRequest, format: OutputFormat, preset: &Option<String>) -> (r:
    SocketRequest)
    requires
        req.image@.len() <= usize::MAX / 2,
        req.image_b matches Some(b) ==> b@.len() <= usize::MAX / 2,
    ensures
        carries(r, *req, format, *preset),
{
    let image = encode_b64(req.image.as_slice());
    let image_b = match &req.image_b {
        Some(b) => Some(encode_b64(b.as_slice())),
        None => None,
    };
    SocketRequest::Infer {
        prompt: req.prompt.clone(),
        image,
        image_b,
        max_tokens: req.max_tokens,
        temperature_bits: req.temperature_bits,
        timeout_ms: req.timeout_ms,
        format: String::from_str(format.name()),
        preset: clone_opt(preset),
    }
}

/// The warm path serves the same request as the cold path: whatever the daemon
/// decodes from a request that carries `req`, it runs exactly `req`.
pub proof fn law_warm_request_matches_cold(
    req: InferenceRequest,
    s: SocketRequest,
    format: OutputFormat,
    preset: Option<String>,
    label: Seq<char>,
    r: Result<ConnectionStep, VisionError>,
)
    requires
        carries(s, req, format, preset),
        handled(s, label, r),
    ensures
        r matches Ok(ConnectionStep::Infer(q)) && request_view(q) == request_view(req),
{
    law_base64_roundtrip(req.image@);
    match req.image_b {
        Some(b) => {
            law_base64_roundtrip(b@);
        },
        None => {},
    }
}

/// What an answer from the warm daemon gives: its response when it succeeded;
/// otherwise nothing, and the analysis falls back to a cold run.
pub fn warm_response(resp: SocketResponse) -> (r: Option<InferenceResponse>)
    ensures
        (match resp {
            SocketResponse::Success { text, tokens, time_ms, model } => r matches Some(x) && x.text
                == text && x.tokens == tokens && x.time_ms == time_ms && x.model == model,
            _ => r is None,
        }),
{
    match resp {
        SocketResponse::Success { text, tokens, time_ms, model } => Some(
            InferenceResponse { text, tokens, time_ms, model },
        ),
        _ => None,
    }
}

/// The log filter: `RUST_LOG` when set and not empty, else a level by verbosity
/// (`warn`, `info` for `-v`, `debug` for `-vv`, `trace` beyond).
pub open spec fn log_filter_spec(rust_log: Option<String>, verbose: u8) -> Seq<char> {
    match env_value(rust_log) {
        Some(v) => v,
        None => if verbose == 0 {
            "warn"@
        } else if verbose == 1 {
            "info"@
        } else if verbose == 2 {
            "debug"@
        } else {
            "trace"@
        },
    }
}

/// The log filter for the given `RUST_LOG` and verbosity.
pub fn log_filter(rust_log: &Option<String>, verbose: u8) -> (r: String)
    ensures
        r@ == log_filter_spec(*rust_log, verbose),
{
    match crate::config::env_text(rust_log) {
        Some(v) => v,
        None => String::from_str(
            if verbose == 0 {
                "warn"
            } else if verbose == 1 {
                "info"
            } else if verbose == 2 {
                "debug"
            } else {
                "trace"
            },
        ),
    }
}

/// The line printed when the warm daemon answers a health check.
pub fn health_line_warm() -> (r: String)
    ensures
        r@ == "{\"status\":\"ok\",\"mode\":\"warm\"}"@,
{
    String::from_str("{\"status\":\"ok\",\"mode\":\"warm\"}")
}

/// The line printed when a cold backend passes a health check.
pub fn health_line_cold(label: &str) -> (r: String)
    ensures
        r@ == "{\"status\":\"ok\",\"mode\":\"cold\",\"backend\":\""@ + label@ + "\"}"@,
{
    prefixed("{\"status\":\"ok\",\"mode\":\"cold\",\"backend\":\"", label, "\"}")
}

/// The line printed when the warm daemon has started.
pub fn daemon_started_line(socket_path: &str) -> (r: String)
    ensures
        r@ == "vision-analyze daemon started (socket: "@ + socket_path@ + ")"@,
{
    prefixed("vision-analyze daemon started (socket: ", socket_path, ")")
}

/// The line `--health` prints when the warm daemon answers.
pub open spec fn warm_health_line() -> Seq<char> {
    "{\"status\":\"ok\",\"mode\":\"warm\"}"@
}

/// The line `--health` prints when the cold backend `label` passes its check.
pub open spec fn cold_health_line(label: Seq<char>) -> Seq<char> {
    "{\"status\":\"ok\",\"mode\":\"cold\",\"backend\":\""@ + label + "\"}"@
}

/// Where `--health` stands.
#[derive(Debug, Clone, Copy, PartialEq, Eq)]
pub enum HealthState {
    /// Asking the warm daemon, if one answers on its socket.
    AskingDaemon,
    /// Selecting a cold backend.
    Selecting,
    /// Checking the selected backend, which reports itself with this label.
    Checking(&'static str),
}

/// What `--health` asks to be done next.
#[derive(Debug, Clone, Copy, PartialEq, Eq, Structural)]
pub enum HealthAction {
    /// Connect to the daemon's socket and send `Health`.
    AskDaemon,
    /// Select a backend as an analysis would.
    SelectBackend,
    /// Run the selected backend's own health check.
    CheckBackend,
}

/// What came of the last action.
#[derive(Debug)]
pub enum HealthEvent {
    /// Whether the daemon answered with a `Health` reply (false when it was
    /// unreachable, the exchange failed or it answered something else).
    DaemonAnswered(bool),
    /// The selected backend's label, or why no backend could be selected.
    Selected(Result<&'static str, VisionError>),
    /// How the backend's health check went.
    Checked(Result<(), VisionError>),
}

/// How `--health` ends when it does not fail.
#[derive(Debug)]
pub enum HealthReport {
    /// Healthy: print this line on standard output and exit with 0.
    Healthy(String),
    /// No backend could be selected: print the error on standard error and exit
    /// with this code (the error's exit code).
    NoBackend(VisionError, i32),
}

/// The outcome of one step of `--health`.
#[derive(Debug)]
pub enum HealthStep {
    /// Go on in this state with this action.
    Next(HealthState, HealthAction),
    /// `--health` is over: a report, or an error that fails the command.
    Finished(Result<HealthReport, VisionError>),
}

/// The action a state waits on.
pub open spec fn health_pending(s: HealthState) -> HealthAction {
    match s {
        HealthState::AskingDaemon => HealthAction::AskDaemon,
        HealthState::Selecting => HealthAction::SelectBackend,
        HealthState::Checking(_) => HealthAction::CheckBackend,
    }
}

/// One step of `--health`: a warm daemon that answers with a health reply makes
/// it healthy (the warm line). Otherwise a backend is selected; when none can
/// be, the report carries the selection error and its exit code (2 for a missing
/// backend or model), and the command does not fail. A selected backend whose
/// check passes gives the cold line with its label; a failed check fails the
/// command with that error. An event that does not answer the state's action
/// leaves the state and its action as they are.
pub open spec fn health_moves(s: HealthState, e: HealthEvent, r: HealthStep) -> bool {
    let stay = r == HealthStep::Next(s, health_pending(s));
    match s {
        HealthState::AskingDaemon => match e {
            HealthEvent::DaemonAnswered(true) => r matches HealthStep::Finished(
                Ok(HealthReport::Healthy(line)),
            ) && line@ == warm_health_line(),
            HealthEvent::DaemonAnswered(false) => r == HealthStep::Next(
                HealthState::Selecting,
                HealthAction::SelectBackend,
            ),
            _ => stay,
        },
        HealthState::Selecting => match e {
            HealthEvent::Selected(Ok(label)) => r == HealthStep::Next(
                HealthState::Checking(label),
                HealthAction::CheckBackend,
            ),
            HealthEvent::Selected(Err(x)) => r matches HealthStep::Finished(
                Ok(HealthReport::NoBackend(y, code)),
            ) && y == x && code == exit_code_of(x),
            _ => stay,
        },
        HealthState::Checking(label) => match e {
            HealthEvent::Checked(Ok(())) => r matches HealthStep::Finished(
                Ok(HealthReport::Healthy(line)),
            ) && line@ == cold_health_line(label@),
            HealthEvent::Checked(Err(x)) => r matches HealthStep::Finished(Err(y)) && y == x,
            _ => stay,
        },
    }
}

/// Where `--health` begins: asking the warm daemon.
pub fn health_start() -> (r: (HealthState, HealthAction))
    ensures
        r == (HealthState::AskingDaemon, HealthAction::AskDaemon),
{
    (HealthState::AskingDaemon, HealthAction::AskDaemon)
}

/// The action a state waits on.
pub fn health_pending_action(s: HealthState) -> (a: HealthAction)
    ensures
        a == health_pending(s),
{
    match s {
        HealthState::AskingDaemon => HealthAction::AskDaemon,
        HealthState::Selecting => HealthAction::SelectBackend,
        HealthState::Checking(_) => HealthAction::CheckBackend,
    }
}

/// One step of `--health` (see `health_moves`).
pub fn health_step(s: HealthState, e: HealthEvent) -> (r: HealthStep)
    ensures
        health_moves(s, e, r),
{
    match s {
        HealthState::AskingDaemon => match e {
            HealthEvent::DaemonAnswered(answered) => if answered {
                HealthStep::Finished(Ok(HealthReport::Healthy(health_line_warm())))
            } else {
                HealthStep::Next(HealthState::Selecting, HealthAction::SelectBackend)
            },
            _ => HealthStep::Next(s, health_pending_action(s)),
        },
        HealthState::Selecting => match e {
            HealthEvent::Selected(Ok(label)) => HealthStep::Next(
                HealthState::Checking(label),
                HealthAction::CheckBackend,
            ),
            HealthEvent::Selected(Err(x)) => {
                let code = x.exit_code();
                HealthStep::Finished(Ok(HealthReport::NoBackend(x, code)))
            },
            _ => HealthStep::Next(s, health_pending_action(s)),
        },
        HealthState::Checking(label) => match e {
            HealthEvent::Checked(Ok(())) => HealthStep::Finished(
                Ok(HealthReport::Healthy(health_line_cold(label))),
            ),
            HealthEvent::Checked(Err(x)) => HealthStep::Finished(Err(x)),
            _ => HealthStep::Next(s, health_pending_action(s)),
        },
    }
}

/// `--health` exits with 2 when no backend is available: a selection that fails
/// for want of a backend or a model ends the check with a report whose exit
/// code is 2, and the command itself does not fail.
pub proof fn law_health_without_backend_exits_2(e: VisionError, r: HealthStep)
    requires
        e is BackendUnavailable || e is ModelNotFound,
        health_moves(HealthState::Selecting, HealthEvent::Selected(Err(e)), r),
    ensures
        r matches HealthStep::Finished(Ok(HealthReport::NoBackend(_, code))) && code == 2,
{
}

/// Without a preset, an analysis asks the user's prompt about the given image,
/// with one image, and answers in the configured format (`--format`, then
/// `VISION_DEFAULT_FORMAT`, then text), whatever the presets hold.
pub proof fn law_plan_without_preset(
    args: Args,
    cfg: EffectiveConfig,
    presets: Map<Seq<char>, Preset>,
    r: Result<InferencePlan, VisionError>,
)
    requires
        plan_matches(r, planned(args, cfg, presets)),
        args.image is Some,
        args.preset is None,
        args.prompt is Some,
    ensures
        r matches Ok(p) && p.format == cfg.format && p.prompt@ == args.prompt->0@
            && p.image_path@ == args.image->0@ && !p.two_images,
{
}

/// With a preset that exists, the preset supplies the prompt (a positional prompt
/// is ignored) and the number of images; it answers in JSON or text when it says
/// so, and in the configured format when it names no format.
pub proof fn law_plan_with_preset(
    args: Args,
    cfg: EffectiveConfig,
    presets: Map<Seq<char>, Preset>,
    r: Result<InferencePlan, VisionError>,
)
    requires
        plan_matches(r, planned(args, cfg, presets)),
        args.image is Some,
        args.preset is Some,
        presets.contains_key(args.preset->0@),
    ensures
        ({
            let pr = presets[args.preset->0@];
            &&& r matches Ok(p)
            &&& r->Ok_0.prompt@ == pr.prompt@
            &&& r->Ok_0.image_path@ == args.image->0@
            &&& r->Ok_0.two_images == pr.two_images
            &&& pr.format is None ==> r->Ok_0.format == cfg.format
            &&& (pr.format matches Some(f) && f@ == "json"@) ==> r->Ok_0.format
                == OutputFormat::Json
            &&& (pr.format matches Some(f) && f@ == "text"@) ==> r->Ok_0.format
                == OutputFormat::Text
        }),
{
    let pr = presets[args.preset->0@];
    if pr.format matches Some(f) && f@ == "json"@ {
        lemma_lower_of_lowercase_json();
    }
    if pr.format matches Some(f) && f@ == "text"@ {
        lemma_lower_of_lowercase_text();
    }
}

proof fn lemma_lower_of_lowercase_json()
    ensures
        parse_output_format("json"@) == Some(OutputFormat::Json),
{
    reveal_strlit("json");
    reveal_strlit("text");
    reveal_strlit("txt");
    reveal_strlit("plain");
    assert(lower_spec("json"@) =~= "json"@);
    assert("json"@[0] != "text"@[0]);
    assert("json"@.len() != "txt"@.len() && "json"@.len() != "plain"@.len());
}

proof fn lemma_lower_of_lowercase_text()
    ensures
        parse_output_format("text"@) == Some(OutputFormat::Text),
{
    reveal_strlit("text");
    assert(lower_spec("text"@) =~= "text"@);
}

/// An analysis fails exactly when the image is missing, the named preset does
/// not exist, or there is neither a preset nor a prompt; the image is checked
/// first, and a missing preset is reported by its name.
pub proof fn law_plan_failures(
    args: Args,
    cfg: EffectiveConfig,
    presets: Map<Seq<char>, Preset>,
    r: Result<InferencePlan, VisionError>,
)
    requires
        plan_matches(r, planned(args, cfg, presets)),
    ensures
        args.image is None ==> r matches Err(VisionError::InvalidArgs(_)),
        (args.image is Some && args.preset is Some && !presets.contains_key(args.preset->0@))
            ==> (r matches Err(VisionError::PresetNotFound(n)) && n@ == args.preset->0@),
        (args.image is Some && args.preset is None && args.prompt is None) ==> r matches Err(
            VisionError::InvalidArgs(_),
        ),
        r is Ok <==> (args.image is Some && (match args.preset {
            Some(n) => presets.contains_key(n@),
            None => args.prompt is Some,
        })),
{
}

/// `--health` reports healthy only with the warm line after the daemon answered,
/// or with the cold line naming the checked backend after its check passed; it
/// fails only when the selected backend's check failed, with that error.
pub proof fn law_health_reports(s: HealthState, e: HealthEvent, r: HealthStep)
    requires
        health_moves(s, e, r),
    ensures
        (r is Finished && r->Finished_0 is Ok && r->Finished_0->Ok_0 is Healthy) ==> (
        (s == HealthState::AskingDaemon && e == HealthEvent::DaemonAnswered(true)
            && r->Finished_0->Ok_0->Healthy_0@ == "{\"status\":\"ok\",\"mode\":\"warm\"}"@)
            || (s is Checking && e is Checked && e->Checked_0 is Ok
            && r->Finished_0->Ok_0->Healthy_0@ == "{\"status\":\"ok\",\"mode\":\"cold\",\"backend\":\""@
            + s->Checking_0@ + "\"}"@)),
        (r is Finished && r->Finished_0 is Err) ==> (s is Checking && e is Checked
            && e->Checked_0 is Err && r->Finished_0->Err_0 == e->Checked_0->Err_0),
        (r is Finished && r->Finished_0 is Ok && r->Finished_0->Ok_0 is NoBackend) ==> (s
            == HealthState::Selecting && e is Selected && e->Selected_0 is Err
            && r->Finished_0->Ok_0->NoBackend_1 == exit_code_of(e->Selected_0->Err_0)),
        (s == HealthState::AskingDaemon && e == HealthEvent::DaemonAnswered(false)) ==> r
            == HealthStep::Next(HealthState::Selecting, HealthAction::SelectBackend),
{
}

/// The log filter is `RUST_LOG` when it is set and not empty, whatever the
/// verbosity; otherwise it rises with each `-v`: warn, info, debug, then trace.
pub proof fn law_log_filter(rust_log: Option<String>, verbose: u8)
    ensures
        (rust_log is Some && rust_log->0@.len() > 0) ==> log_filter_spec(rust_log, verbose)
            == rust_log->0@,
        !(rust_log is Some && rust_log->0@.len() > 0) ==> log_filter_spec(rust_log, verbose) == (
        if verbose == 0 {
            "warn"@
        } else if verbose == 1 {
            "info"@
        } else if verbose == 2 {
            "debug"@
        } else {
            "trace"@
        }),
{
}

} // verus!
