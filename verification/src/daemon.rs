//! Decisions of the warm daemon: what each request on the socket is answered
//! with, and how its pid file and socket are judged.

use vstd::prelude::*;

use crate::client::{base64_decode_spec, lemma_base64_injective, request_view, InferenceRequest, InferenceResponse};
use crate::error::{exit_code_of, message_of, outside_prefix, prefixed, VisionError};
use crate::socket::{SocketRequest, SocketResponse};
use crate::text::{decimal, decimal_spec, parse_i32, parse_i32_spec, trim, trim_spec};
use crate::trusted::{
    base64_decode, base64_error_text, base64_spec, io_error_text, str_debug, str_debug_spec,
};

verus! {

/// What the daemon does with one request.
#[derive(Debug)]
pub enum ConnectionStep {
    /// Write `response`; stop accepting connections afterwards when `shutdown`.
    Reply { response: SocketResponse, shutdown: bool },
    /// Run this inference on the backend, then reply with its result.
    Infer(InferenceRequest),
}

/// The code the daemon reports with an error: `backend_unavailable` for errors
/// with exit code 2, `analysis_failed` for the others.
pub open spec fn error_code_of(e: VisionError) -> Seq<char> {
    if exit_code_of(e) == 2 {
        "backend_unavailable"@
    } else {
        "analysis_failed"@
    }
}

/// How a request is handled, when it is not an inference: the reply and whether
/// the daemon stops.
pub open spec fn control_reply(
    req: SocketRequest,
    label: Seq<char>,
    r: Result<ConnectionStep, VisionError>,
) -> bool {
    match req {
        SocketRequest::Health => r matches Ok(
            ConnectionStep::Reply { response: SocketResponse::Health { status, backend }, shutdown },
        ) && status@ == "ok"@ && backend@ == label && !shutdown,
        SocketRequest::Stop => r matches Ok(
            ConnectionStep::Reply { response: SocketResponse::Stopped, shutdown },
        ) && shutdown,
        _ => true,
    }
}

/// How an inference request is handled: both images are decoded from base64
/// (the first one first); a text that does not decode fails the connection.
pub open spec fn infer_step(
    prompt: Seq<char>,
    image: Seq<char>,
    image_b: Option<Seq<char>>,
    max_tokens: u32,
    temperature_bits: u32,
    timeout_ms: u64,
    r: Result<ConnectionStep, VisionError>,
) -> bool {
    match base64_decode_spec(image) {
        None => r matches Err(VisionError::Daemon(m)) && m@ == "image_a base64 decode: "@
            + base64_error_text(image),
        Some(a) => match image_b {
            Some(t) => match base64_decode_spec(t) {
                None => r matches Err(VisionError::Daemon(m)) && m@ == "image_b base64 decode: "@
                    + base64_error_text(t),
                Some(b) => r matches Ok(ConnectionStep::Infer(q)) && request_view(q) == (
                    prompt,
                    a,
                    Some(b),
                    max_tokens,
                    temperature_bits,
                    timeout_ms,
                ),
            },
            None => r matches Ok(ConnectionStep::Infer(q)) && request_view(q) == (
                prompt,
                a,
                None::<Seq<u8>>,
                max_tokens,
                temperature_bits,
                timeout_ms,
            ),
        },
    }
}

/// The whole of the daemon's handling of one request.
pub open spec fn handled(req: SocketRequest, label: Seq<char>, r: Result<ConnectionStep, VisionError>) -> bool {
    match req {
        SocketRequest::Infer { prompt, image, image_b, max_tokens, temperature_bits, timeout_ms, .. } =>
            infer_step(
            prompt@,
            image@,
            crate::config::opt_view(image_b),
            max_tokens,
            temperature_bits,
            timeout_ms,
            r,
        ),
        _ => control_reply(req, label, r),
    }
}

/// Decodes base64 text, naming the image in the error.
fn decode_image(text: &str, which: &str) -> (r: Result<Vec<u8>, VisionError>)
    ensures
        (match base64_decode_spec(text@) {
            None => r matches Err(VisionError::Daemon(m)) && m@ == which@ + " base64 decode: "@
                + base64_error_text(text@),
            Some(b) => r matches Ok(v) && v@ == b,
        }),
{
    match base64_decode(text) {
        Ok(v) => {
            proof {
                let c = choose|c: Seq<u8>| text@ == base64_spec(c);
                lemma_base64_injective(v@, c);
            }
            Ok(v)
        },
        Err(e) => {
            let mut m = String::from_str(which);
            m.append(" base64 decode: ");
            m.append(e.as_str());
            Err(VisionError::Daemon(m))
        },
    }
}

/// What the daemon does with `req`: answer health and stop requests directly,
/// or decode an inference request for the backend.
pub fn handle_request(req: SocketRequest, backend_label: &str) -> (r: Result<ConnectionStep, VisionError>)
    ensures
        handled(req, backend_label@, r),
{
    match req {
        SocketRequest::Infer { prompt, image, image_b, max_tokens, temperature_bits, timeout_ms, .. } => {
            let image_bytes = match decode_image(image.as_str(), "image_a") {
                Ok(v) => v,
                Err(e) => {
                    proof {
                        reveal_strlit("image_a");
                        reveal_strlit(" base64 decode: ");
                        reveal_strlit("image_a base64 decode: ");
                    }
                    assert("image_a"@ + " base64 decode: "@ =~= "image_a base64 decode: "@);
                    return Err(e);
                },
            };
            let image_b_bytes = match &image_b {
                Some(b) => match decode_image(b.as_str(), "image_b") {
                    Ok(v) => Some(v),
                    Err(e) => {
                        proof {
                            reveal_strlit("image_b");
                            reveal_strlit(" base64 decode: ");
                            reveal_strlit("image_b base64 decode: ");
                        }
                        assert("image_b"@ + " base64 decode: "@ =~= "image_b base64 decode: "@);
                        return Err(e);
                    },
                },
                None => None,
            };
            Ok(
                ConnectionStep::Infer(
                    InferenceRequest {
                        prompt,
                        image: image_bytes,
                        image_b: image_b_bytes,
                        max_tokens,
                        temperature_bits,
                        timeout_ms,
                    },
                ),
            )
        },
        SocketRequest::Health => Ok(
            ConnectionStep::Reply {
                response: SocketResponse::Health {
                    status: String::from_str("ok"),
                    backend: String::from_str(backend_label),
                },
                shutdown: false,
            },
        ),
        SocketRequest::Stop => Ok(
            ConnectionStep::Reply { response: SocketResponse::Stopped, shutdown: true },
        ),
    }
}

/// The code reported with an error.
pub fn error_code(e: &VisionError) -> (r: &'static str)
    ensures
        r@ == error_code_of(*e),
{
    if e.exit_code() == 2 {
        "backend_unavailable"
    } else {
        "analysis_failed"
    }
}

/// The reply to an inference: the response, or the error's text and code.
pub fn inference_reply(result: Result<InferenceResponse, VisionError>) -> (r: SocketResponse)
    ensures
        (match result {
            Ok(resp) => r matches SocketResponse::Success { text, tokens, time_ms, model } && text
                == resp.text && tokens == resp.tokens && time_ms == resp.time_ms && model
                == resp.model,
            Err(e) => r matches SocketResponse::Error { error, code } && code@ == error_code_of(e)
                && (match message_of(e) {
                Some(t) => error@ == t,
                None => error@.len() >= outside_prefix(e).len() && error@.subrange(
                    0,
                    outside_prefix(e).len() as int,
                ) == outside_prefix(e),
            }),
        }),
{
    match result {
        Ok(resp) => SocketResponse::Success {
            text: resp.text,
            tokens: resp.tokens,
            time_ms: resp.time_ms,
            model: resp.model,
        },
        Err(e) => {
            let code = error_code(&e);
            SocketResponse::Error { error: e.message(), code: String::from_str(code) }
        },
    }
}

/// The pid in a pid file's text, when it holds one (surrounding white space allowed).
pub open spec fn pid_spec(contents: Seq<char>) -> Option<int> {
    parse_i32_spec(trim_spec(contents))
}

/// The pid in a pid file, as `stop` reads it: a malformed file is an error that
/// quotes its text.
pub fn parse_pid_file(contents: &str) -> (r: Result<i32, VisionError>)
    ensures
        (match pid_spec(contents@) {
            Some(p) => r matches Ok(n) && n as int == p,
            None => r matches Err(VisionError::Daemon(m)) && m@ == "malformed pid file: "@
                + str_debug_spec(contents@),
        }),
{
    let t = trim(contents);
    match parse_i32(t.as_str()) {
        Some(n) => Ok(n),
        None => {
            let d = str_debug(contents);
            proof {
                reveal_strlit("");
            }
            Err(VisionError::Daemon(prefixed("malformed pid file: ", d.as_str(), "")))
        },
    }
}

/// The pid in a pid file that was read, if it was read and holds one.
pub fn pid_in(contents: &Option<String>) -> (r: Option<i32>)
    ensures
        (match *contents {
            Some(c) => match pid_spec(c@) {
                Some(p) => r matches Some(n) && n as int == p,
                None => r is None,
            },
            None => r is None,
        }),
{
    match contents {
        Some(c) => {
            let t = trim(c.as_str());
            parse_i32(t.as_str())
        },
        None => None,
    }
}

/// Before binding, a left-over socket is removed (`Ok(true)`) unless the pid file
/// names a live process, which means a daemon is already running. With no
/// socket there is nothing to do (`Ok(false)`). `pid_alive` is read only when
/// there is a pid.
pub fn stale_socket_action(socket_exists: bool, pid: Option<i32>, pid_alive: bool) -> (r: Result<
    bool,
    VisionError,
>)
    ensures
        !socket_exists ==> r matches Ok(false),
        socket_exists && pid is Some && pid_alive ==> (r matches Err(VisionError::Daemon(m)) && m@
            == "daemon is already running (pid file exists and process is alive)"@),
        socket_exists && !(pid is Some && pid_alive) ==> r matches Ok(true),
{
    if !socket_exists {
        return Ok(false);
    }
    if pid.is_some() && pid_alive {
        return Err(
            VisionError::Daemon(
                String::from_str("daemon is already running (pid file exists and process is alive)"),
            ),
        );
    }
    Ok(true)
}

/// A daemon counts as running when its socket accepts connections and the pid
/// file, when it holds a pid, names a live process. `pid_alive` is read only
/// when there is a pid.
pub fn daemon_running(socket_reachable: bool, pid: Option<i32>, pid_alive: bool) -> (b: bool)
    ensures
        b == (socket_reachable && (pid is Some ==> pid_alive)),
{
    if !socket_reachable {
        return false;
    }
    match pid {
        Some(_) => pid_alive,
        None => true,
    }
}

/// Whether the daemon acknowledged a stop request.
pub fn stop_acknowledged(resp: &SocketResponse) -> (b: bool)
    ensures
        b == (*resp matches SocketResponse::Stopped),
{
    match resp {
        SocketResponse::Stopped => true,
        _ => false,
    }
}

/// The text written into the pid file.
pub fn pid_file_text(pid: u32) -> (r: String)
    ensures
        r@ == decimal_spec(pid as nat),
{
    decimal(pid as u64)
}

/// Time between readiness probes of a daemon that `--warm` started, in milliseconds.
pub const READY_POLL_MS: u64 = 50;

/// How long one readiness probe may take to connect, in milliseconds.
pub const READY_CONNECT_MS: u64 = 50;

/// How long a daemon that `--warm` started has to become ready, in milliseconds.
pub const READY_TIMEOUT_MS: u64 = 5000;

/// What `--warm` does after a readiness probe.
#[derive(Debug, Clone, Copy, PartialEq, Eq, Structural)]
pub enum ReadyStep {
    /// The socket accepted a connection: the daemon is up.
    Ready,
    /// Not yet: probe again after `READY_POLL_MS`.
    Poll,
    /// The daemon did not come up in time.
    TimedOut,
}

/// The step after a probe, `elapsed_ms` after the daemon was launched.
pub open spec fn readiness_spec(connected: bool, elapsed_ms: u64) -> ReadyStep {
    if connected {
        ReadyStep::Ready
    } else if elapsed_ms >= READY_TIMEOUT_MS {
        ReadyStep::TimedOut
    } else {
        ReadyStep::Poll
    }
}

/// The step after a probe: ready when it connected, timed out once
/// `READY_TIMEOUT_MS` have passed, otherwise another probe.
pub fn readiness_step(connected: bool, elapsed_ms: u64) -> (s: ReadyStep)
    ensures
        s == readiness_spec(connected, elapsed_ms),
{
    if connected {
        ReadyStep::Ready
    } else if elapsed_ms >= READY_TIMEOUT_MS {
        ReadyStep::TimedOut
    } else {
        ReadyStep::Poll
    }
}

/// What `--warm` ends with at a step, or `None` while it keeps probing.
pub fn readiness_result(s: ReadyStep) -> (r: Option<Result<(), VisionError>>)
    ensures
        (match s {
            ReadyStep::Ready => r matches Some(Ok(())),
            ReadyStep::TimedOut => r matches Some(Err(VisionError::Daemon(m))) && m@
                == "daemon did not become ready within 5 s"@,
            ReadyStep::Poll => r is None,
        }),
{
    match s {
        ReadyStep::Ready => Some(Ok(())),
        ReadyStep::TimedOut => Some(
            Err(VisionError::Daemon(String::from_str("daemon did not become ready within 5 s"))),
        ),
        ReadyStep::Poll => None,
    }
}

/// `--warm` refuses to start a second daemon.
pub fn warm_precheck(running: bool) -> (r: Result<(), VisionError>)
    ensures
        running ==> (r matches Err(VisionError::Daemon(m)) && m@ == "daemon is already running"@),
        !running ==> r is Ok,
{
    if running {
        Err(VisionError::Daemon(String::from_str("daemon is already running")))
    } else {
        Ok(())
    }
}

/// The error when the daemon process cannot be spawned: the text is
/// `failed to spawn daemon: ` followed by the I/O error's own text.
pub fn spawn_failure(e: &std::io::Error) -> (r: VisionError)
    ensures
        r matches VisionError::Daemon(m) && m@.len() >= "failed to spawn daemon: "@.len()
            && m@.subrange(0, "failed to spawn daemon: "@.len() as int)
            == "failed to spawn daemon: "@,
{
    let t = io_error_text(e);
    let m = prefixed("failed to spawn daemon: ", t.as_str(), "");
    proof {
        reveal_strlit("");
        let p = "failed to spawn daemon: "@;
        assert(m@.subrange(0, p.len() as int) =~= p);
    }
    VisionError::Daemon(m)
}

/// How long a stop that the daemon acknowledged waits for it to clean up, in ms.
pub const STOP_PAUSE_MS: u64 = 200;

/// How long `--stop` waits after SIGTERM before checking the process, in ms.
pub const STOP_GRACE_MS: u64 = 2000;

/// Where `--stop` stands.
#[derive(Debug, Clone, Copy, PartialEq, Eq, Structural)]
pub enum StopState {
    /// Asking the daemon over its socket to stop.
    AskingDaemon,
    /// The daemon acknowledged; giving it time to remove its files.
    Pausing,
    /// Looking for the pid file.
    CheckingPidFile,
    /// Reading the pid file.
    ReadingPidFile,
    /// Sending SIGTERM to the process.
    Terminating(i32),
    /// Waiting after SIGTERM.
    Grace(i32),
    /// Checking whether the process is still alive.
    Probing(i32),
    /// Sending SIGKILL to the process.
    Killing(i32),
    /// Removing the socket and pid files.
    Removing,
}

/// What `--stop` asks to be done next.
#[derive(Debug, Clone, Copy, PartialEq, Eq, Structural)]
pub enum StopAction {
    /// Connect to the daemon's socket and send `Stop`.
    AskDaemon,
    /// Sleep this many milliseconds.
    Pause(u64),
    /// Check whether the pid file exists.
    CheckPidFile,
    /// Read the pid file.
    ReadPidFile,
    /// Send SIGTERM to the process.
    Terminate(i32),
    /// Check whether the process is alive (signal 0).
    Probe(i32),
    /// Send SIGKILL to the process.
    Kill(i32),
    /// Remove the socket and pid files, ignoring failures.
    RemoveFiles,
}

/// What came of the last action.
#[derive(Debug)]
pub enum StopEvent {
    /// Whether the daemon acknowledged `Stop` (false when it was unreachable,
    /// the exchange failed or it answered something else).
    DaemonReplied(bool),
    /// The pause is over.
    Paused,
    /// Whether the pid file exists.
    PidFileChecked(bool),
    /// The pid file's text, or the error reading it.
    PidFileRead(Result<String, std::io::Error>),
    /// Whether the signal was delivered.
    Signalled(bool),
    /// Whether the process is alive.
    Probed(bool),
    /// The files were removed (or were not there).
    FilesRemoved,
}

/// The outcome of one step of `--stop`.
#[derive(Debug)]
pub enum StopStep {
    /// Go on in this state with this action.
    Next(StopState, StopAction),
    /// `--stop` is over, with this result.
    Finished(Result<(), VisionError>),
}

/// The action a state waits on.
pub open spec fn pending_action(s: StopState) -> StopAction {
    match s {
        StopState::AskingDaemon => StopAction::AskDaemon,
        StopState::Pausing => StopAction::Pause(STOP_PAUSE_MS),
        StopState::CheckingPidFile => StopAction::CheckPidFile,
        StopState::ReadingPidFile => StopAction::ReadPidFile,
        StopState::Terminating(p) => StopAction::Terminate(p),
        StopState::Grace(_) => StopAction::Pause(STOP_GRACE_MS),
        StopState::Probing(p) => StopAction::Probe(p),
        StopState::Killing(p) => StopAction::Kill(p),
        StopState::Removing => StopAction::RemoveFiles,
    }
}

/// One step of `--stop`: a `Stop` the daemon acknowledges ends it after a short
/// pause, with no pid file read and no signal. Otherwise the pid file decides:
/// without one the files are removed; an unreadable or malformed one is an error,
/// with no signal sent; else SIGTERM, and only when that was delivered, a grace
/// period and SIGKILL if the process is still alive; then the files are removed
/// and the stop succeeds. An event that does not answer the state's action
/// leaves the state and its action as they are.
pub open spec fn stop_moves(s: StopState, e: StopEvent, r: StopStep) -> bool {
    let stay = r == StopStep::Next(s, pending_action(s));
    let remove = r == StopStep::Next(StopState::Removing, StopAction::RemoveFiles);
    match s {
        StopState::AskingDaemon => match e {
            StopEvent::DaemonReplied(true) => r == StopStep::Next(
                StopState::Pausing,
                StopAction::Pause(STOP_PAUSE_MS),
            ),
            StopEvent::DaemonReplied(false) => r == StopStep::Next(
                StopState::CheckingPidFile,
                StopAction::CheckPidFile,
            ),
            _ => stay,
        },
        StopState::Pausing => match e {
            StopEvent::Paused => r matches StopStep::Finished(Ok(())),
            _ => stay,
        },
        StopState::CheckingPidFile => match e {
            StopEvent::PidFileChecked(true) => r == StopStep::Next(
                StopState::ReadingPidFile,
                StopAction::ReadPidFile,
            ),
            StopEvent::PidFileChecked(false) => remove,
            _ => stay,
        },
        StopState::ReadingPidFile => match e {
            StopEvent::PidFileRead(Err(x)) => r matches StopStep::Finished(Err(VisionError::Io(y)))
                && y == x,
            StopEvent::PidFileRead(Ok(t)) => match pid_spec(t@) {
                Some(p) => r matches StopStep::Next(StopState::Terminating(n), StopAction::Terminate(m))
                    && n == m && n as int == p,
                None => r matches StopStep::Finished(Err(VisionError::Daemon(m))) && m@
                    == "malformed pid file: "@ + str_debug_spec(t@),
            },
            _ => stay,
        },
        StopState::Terminating(p) => match e {
            StopEvent::Signalled(true) => r == StopStep::Next(
                StopState::Grace(p),
                StopAction::Pause(STOP_GRACE_MS),
            ),
            StopEvent::Signalled(false) => remove,
            _ => stay,
        },
        StopState::Grace(p) => match e {
            StopEvent::Paused => r == StopStep::Next(StopState::Probing(p), StopAction::Probe(p)),
            _ => stay,
        },
        StopState::Probing(p) => match e {
            StopEvent::Probed(true) => r == StopStep::Next(StopState::Killing(p), StopAction::Kill(p)),
            StopEvent::Probed(false) => remove,
            _ => stay,
        },
        StopState::Killing(_) => match e {
            StopEvent::Signalled(_) => remove,
            _ => stay,
        },
        StopState::Removing => match e {
            StopEvent::FilesRemoved => r matches StopStep::Finished(Ok(())),
            _ => stay,
        },
    }
}

/// Where `--stop` begins: asking the daemon.
pub fn stop_start() -> (r: (StopState, StopAction))
    ensures
        r == (StopState::AskingDaemon, StopAction::AskDaemon),
{
    (StopState::AskingDaemon, StopAction::AskDaemon)
}

/// The action a state waits on.
pub fn pending(s: StopState) -> (a: StopAction)
    ensures
        a == pending_action(s),
{
    match s {
        StopState::AskingDaemon => StopAction::AskDaemon,
        StopState::Pausing => StopAction::Pause(STOP_PAUSE_MS),
        StopState::CheckingPidFile => StopAction::CheckPidFile,
        StopState::ReadingPidFile => StopAction::ReadPidFile,
        StopState::Terminating(p) => StopAction::Terminate(p),
        StopState::Grace(_) => StopAction::Pause(STOP_GRACE_MS),
        StopState::Probing(p) => StopAction::Probe(p),
        StopState::Killing(p) => StopAction::Kill(p),
        StopState::Removing => StopAction::RemoveFiles,
    }
}

/// One step of `--stop` (see `stop_moves`).
pub fn stop_step(s: StopState, e: StopEvent) -> (r: StopStep)
    ensures
        stop_moves(s, e, r),
{
    let remove = StopStep::Next(StopState::Removing, StopAction::RemoveFiles);
    match s {
        StopState::AskingDaemon => match e {
            StopEvent::DaemonReplied(ack) => if ack {
                StopStep::Next(StopState::Pausing, StopAction::Pause(STOP_PAUSE_MS))
            } else {
                StopStep::Next(StopState::CheckingPidFile, StopAction::CheckPidFile)
            },
            _ => StopStep::Next(s, pending(s)),
        },
        StopState::Pausing => match e {
            StopEvent::Paused => StopStep::Finished(Ok(())),
            _ => StopStep::Next(s, pending(s)),
        },
        StopState::CheckingPidFile => match e {
            StopEvent::PidFileChecked(exists) => if exists {
                StopStep::Next(StopState::ReadingPidFile, StopAction::ReadPidFile)
            } else {
                remove
            },
            _ => StopStep::Next(s, pending(s)),
        },
        StopState::ReadingPidFile => match e {
            StopEvent::PidFileRead(Err(x)) => StopStep::Finished(Err(VisionError::Io(x))),
            StopEvent::PidFileRead(Ok(t)) => match parse_pid_file(t.as_str()) {
                Ok(n) => StopStep::Next(StopState::Terminating(n), StopAction::Terminate(n)),
                Err(x) => StopStep::Finished(Err(x)),
            },
            _ => StopStep::Next(s, pending(s)),
        },
        StopState::Terminating(p) => match e {
            StopEvent::Signalled(delivered) => if delivered {
                StopStep::Next(StopState::Grace(p), StopAction::Pause(STOP_GRACE_MS))
            } else {
                remove
            },
            _ => StopStep::Next(s, pending(s)),
        },
        StopState::Grace(p) => match e {
            StopEvent::Paused => StopStep::Next(StopState::Probing(p), StopAction::Probe(p)),
            _ => StopStep::Next(s, pending(s)),
        },
        StopState::Probing(p) => match e {
            StopEvent::Probed(alive) => if alive {
                StopStep::Next(StopState::Killing(p), StopAction::Kill(p))
            } else {
                remove
            },
            _ => StopStep::Next(s, pending(s)),
        },
        StopState::Killing(_) => match e {
            StopEvent::Signalled(_) => remove,
            _ => StopStep::Next(s, pending(s)),
        },
        StopState::Removing => match e {
            StopEvent::FilesRemoved => StopStep::Finished(Ok(())),
            _ => StopStep::Next(s, pending(s)),
        },
    }
}

/// How `--stop` signals: it only comes to send SIGTERM to the pid read from a
/// well-formed pid file; it only comes to send SIGKILL to a process that a probe
/// found alive; the probe only follows the grace period, which only follows a
/// delivered SIGTERM and lasts 2000 ms; a stop the daemon acknowledged waits 200 ms
/// and signals nothing; the only failure is an unreadable or malformed pid file;
/// and a stop ends successfully only after the acknowledged pause or after the
/// files are removed. (An event that answers nothing asked leaves the state and
/// its action as they were.)
pub proof fn law_stop_signals(s: StopState, e: StopEvent, r: StopStep)
    requires
        stop_moves(s, e, r),
    ensures
        (r is Next && r->Next_1 is Terminate && !(s is Terminating)) ==> (s
            == StopState::ReadingPidFile && e is PidFileRead && e->PidFileRead_0 is Ok && pid_spec(
            e->PidFileRead_0->Ok_0@,
        ) == Some(r->Next_1->Terminate_0 as int)),
        (r is Next && r->Next_1 is Kill && !(s is Killing)) ==> (s == StopState::Probing(
            r->Next_1->Kill_0,
        ) && e == StopEvent::Probed(true)),
        (r is Next && r->Next_0 is Probing && !(s is Probing)) ==> (s == StopState::Grace(
            r->Next_0->Probing_0,
        ) && e == StopEvent::Paused),
        (r is Next && r->Next_0 is Grace && !(s is Grace)) ==> (s == StopState::Terminating(
            r->Next_0->Grace_0,
        ) && e == StopEvent::Signalled(true) && r->Next_1 == StopAction::Pause(2000)),
        (r is Next && r->Next_0 == s) ==> r->Next_1 == pending_action(s),
        (s == StopState::AskingDaemon && e == StopEvent::DaemonReplied(true)) ==> r
            == StopStep::Next(StopState::Pausing, StopAction::Pause(200)),
        (r is Finished && r->Finished_0 is Err) ==> s == StopState::ReadingPidFile,
        (r is Finished && r->Finished_0 is Ok) ==> ((s == StopState::Pausing && e
            == StopEvent::Paused) || (s == StopState::Removing && e == StopEvent::FilesRemoved)),
{
}

/// A started daemon is ready exactly when its socket accepted a connection; it is
/// given up on exactly when it did not and at least 5000 ms have passed.
pub proof fn law_readiness(connected: bool, elapsed_ms: u64)
    ensures
        (readiness_spec(connected, elapsed_ms) == ReadyStep::Ready) <==> connected,
        (readiness_spec(connected, elapsed_ms) == ReadyStep::TimedOut) <==> (!connected
            && elapsed_ms >= 5000),
        (readiness_spec(connected, elapsed_ms) == ReadyStep::Poll) <==> (!connected
            && elapsed_ms < 5000),
{
}

/// The daemon reports `backend_unavailable` exactly for the errors that make the
/// command exit with 2 (a missing backend or model), and `analysis_failed` for
/// every other error.
pub proof fn law_error_codes(e: VisionError)
    ensures
        (error_code_of(e) == "backend_unavailable"@) <==> (e is BackendUnavailable
            || e is ModelNotFound),
        !(e is BackendUnavailable || e is ModelNotFound) ==> error_code_of(e)
            == "analysis_failed"@,
{
    reveal_strlit("backend_unavailable");
    reveal_strlit("analysis_failed");
    assert("backend_unavailable"@.len() != "analysis_failed"@.len());
}

} // verus!
