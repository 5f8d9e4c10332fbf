//! The socket framing and the warm daemon's decisions.

use vision_analyze::client::{InferenceRequest, InferenceResponse};
use vision_analyze::command::socket_request;
use vision_analyze::config::OutputFormat;
use vision_analyze::daemon::{
    readiness_result, readiness_step, spawn_failure, stop_start, stop_step, warm_precheck,
    ReadyStep, StopAction, StopEvent, StopState, StopStep, READY_POLL_MS, READY_TIMEOUT_MS,
    STOP_GRACE_MS, STOP_PAUSE_MS,
};
use vision_analyze::daemon::{
    daemon_running, error_code, handle_request, inference_reply, parse_pid_file, pid_file_text,
    pid_in, stale_socket_action, stop_acknowledged, ConnectionStep,
};
use vision_analyze::error::VisionError;
use vision_analyze::socket::{frame_message, read_frame, SocketRequest, SocketResponse, MAX_FRAME_BYTES};

#[test]
fn read_message_rejects_oversized_frame() {
    let oversized: Vec<u8> = {
        let mut v = vec![b'x'; MAX_FRAME_BYTES + 1];
        v.push(b'\n');
        v
    };
    let line = String::from_utf8(oversized).unwrap();
    let result = read_frame(line.len(), &line);
    assert!(
        matches!(result, Err(VisionError::PayloadTooLarge(_, _))),
        "expected PayloadTooLarge, got: {result:?}"
    );
}

#[test]
fn read_message_accepts_small_frame() {
    let buf = frame_message(r#"{"op":"health"}"#);
    let decoded = read_frame(buf.len(), &buf);
    assert!(decoded.is_ok());
    assert_eq!(decoded.unwrap(), r#"{"op":"health"}"#);
}

#[test]
fn frame_is_one_line_and_reads_back() {
    let msg = r#"{"type":"ok","text":"a\nb"}"#;
    let line = frame_message(msg);
    assert!(line.ends_with('\n'));
    assert_eq!(line.matches('\n').count(), 1);
    assert_eq!(read_frame(line.len(), &line).unwrap(), msg);
    assert!(matches!(read_frame(0, ""), Err(VisionError::Daemon(m)) if m == "connection closed by peer"));
}

#[test]
fn oversized_limits_report_sizes() {
    let line = "y".repeat(MAX_FRAME_BYTES + 5);
    let e = read_frame(line.len(), &line).unwrap_err();
    assert!(matches!(e, VisionError::PayloadTooLarge(n, limit) if n == MAX_FRAME_BYTES + 5 && limit == 67108864));
    assert_eq!(e.message(), "payload too large: 67108869 bytes (limit 67108864 bytes)");
}

fn req(image_b: Option<Vec<u8>>) -> InferenceRequest {
    InferenceRequest {
        prompt: "describe the image".into(),
        image: vec![0x89, 0x50, 0x4E, 0x47, 0x00, 0xFF],
        image_b,
        max_tokens: 64,
        temperature_bits: 0.25f32.to_bits(),
        timeout_ms: 5000,
    }
}

#[test]
fn warm_request_decodes_to_the_same_request() {
    for b in [None, Some(vec![1u8, 2, 3, 4])] {
        let r = req(b);
        let s = socket_request(&r, OutputFormat::Json, &Some("ui".into()));
        match &s {
            SocketRequest::Infer { format, preset, image, .. } => {
                assert_eq!(format, "json");
                assert_eq!(preset.as_deref(), Some("ui"));
                assert_eq!(image, "iVBORwD/");
            }
            other => panic!("expected Infer, got {other:?}"),
        }
        match handle_request(s, "cli").unwrap() {
            ConnectionStep::Infer(q) => {
                assert_eq!(q.prompt, r.prompt);
                assert_eq!(q.image, r.image);
                assert_eq!(q.image_b, r.image_b);
                assert_eq!(q.max_tokens, r.max_tokens);
                assert_eq!(q.temperature_bits, r.temperature_bits);
                assert_eq!(q.timeout_ms, r.timeout_ms);
            }
            other => panic!("expected Infer, got {other:?}"),
        }
    }
}

#[test]
fn bad_base64_fails_the_connection() {
    let s = SocketRequest::Infer {
        prompt: "p".into(),
        image: "not base64!".into(),
        image_b: None,
        max_tokens: 1,
        temperature_bits: 0,
        timeout_ms: 1,
        format: "text".into(),
        preset: None,
    };
    let e = handle_request(s, "cli").unwrap_err();
    assert!(matches!(&e, VisionError::Daemon(m) if m.starts_with("image_a base64 decode: ")));
    let s = SocketRequest::Infer {
        prompt: "p".into(),
        image: "AQID".into(),
        image_b: Some("AQI".into()),
        max_tokens: 1,
        temperature_bits: 0,
        timeout_ms: 1,
        format: "text".into(),
        preset: None,
    };
    let e = handle_request(s, "cli").unwrap_err();
    assert!(matches!(&e, VisionError::Daemon(m) if m.starts_with("image_b base64 decode: ")));
}

#[test]
fn health_and_stop_replies() {
    match handle_request(SocketRequest::Health, "server").unwrap() {
        ConnectionStep::Reply { response: SocketResponse::Health { status, backend }, shutdown } => {
            assert_eq!(status, "ok");
            assert_eq!(backend, "server");
            assert!(!shutdown);
        }
        other => panic!("unexpected {other:?}"),
    }
    match handle_request(SocketRequest::Stop, "server").unwrap() {
        ConnectionStep::Reply { response, shutdown } => {
            assert!(stop_acknowledged(&response));
            assert!(shutdown);
        }
        other => panic!("unexpected {other:?}"),
    }
}

#[test]
fn inference_replies() {
    let ok = inference_reply(Ok(InferenceResponse {
        text: "a cat".into(),
        tokens: 3,
        time_ms: 42,
        model: "test-model".into(),
    }));
    assert!(matches!(ok, SocketResponse::Success { ref text, tokens: 3, time_ms: 42, ref model } if text == "a cat" && model == "test-model"));
    let err = inference_reply(Err(VisionError::BackendUnavailable("model unavailable".into())));
    assert!(matches!(err, SocketResponse::Error { ref error, ref code } if error == "backend unavailable: model unavailable" && code == "backend_unavailable"));
    let err = inference_reply(Err(VisionError::Timeout(30000)));
    assert!(matches!(err, SocketResponse::Error { ref error, ref code } if error == "timeout after 30000 ms" && code == "analysis_failed"));
    assert_eq!(error_code(&VisionError::ModelNotFound("m".into())), "backend_unavailable");
    assert!(!stop_acknowledged(&SocketResponse::Health { status: "ok".into(), backend: "cli".into() }));
}

#[test]
fn maybe_remove_stale_socket_no_socket_is_noop() {
    assert!(matches!(stale_socket_action(false, None, false), Ok(false)));
}

#[test]
fn maybe_remove_stale_socket_removes_orphaned_file() {
    let pid = pid_in(&Some("99999999".into()));
    assert_eq!(pid, Some(99999999));
    assert!(matches!(stale_socket_action(true, pid, false), Ok(true)));
    let e = stale_socket_action(true, pid, true).unwrap_err();
    assert!(matches!(e, VisionError::Daemon(m) if m == "daemon is already running (pid file exists and process is alive)"));
}

#[test]
fn pid_files() {
    assert_eq!(parse_pid_file(" 1234\n").unwrap(), 1234);
    assert_eq!(parse_pid_file("-7").unwrap(), -7);
    assert_eq!(parse_pid_file("-2147483648").unwrap(), i32::MIN);
    let e = parse_pid_file("12ab\n").unwrap_err();
    assert!(matches!(e, VisionError::Daemon(m) if m == "malformed pid file: \"12ab\\n\""));
    assert!(parse_pid_file("2147483648").is_err());
    assert_eq!(pid_in(&None), None);
    assert_eq!(pid_in(&Some("x".into())), None);
    assert_eq!(pid_file_text(4242), "4242");
    assert!(daemon_running(true, None, false));
    assert!(!daemon_running(false, Some(1), true));
    assert!(!daemon_running(true, Some(1), false));
    assert!(daemon_running(true, Some(1), true));
}

#[test]
fn warm_readiness_steps() {
    assert_eq!(READY_POLL_MS, 50);
    assert_eq!(READY_TIMEOUT_MS, 5000);
    assert_eq!(readiness_step(true, 9999), ReadyStep::Ready);
    assert_eq!(readiness_step(false, 4999), ReadyStep::Poll);
    assert_eq!(readiness_step(false, 5000), ReadyStep::TimedOut);
    assert!(matches!(readiness_result(ReadyStep::Ready), Some(Ok(()))));
    assert!(readiness_result(ReadyStep::Poll).is_none());
    let e = readiness_result(ReadyStep::TimedOut).unwrap().unwrap_err();
    assert_eq!(e.message(), "daemon: daemon did not become ready within 5 s");
}

#[test]
fn warm_refuses_a_second_daemon() {
    assert!(warm_precheck(false).is_ok());
    let e = warm_precheck(true).unwrap_err();
    assert_eq!(e.message(), "daemon: daemon is already running");
    let io = std::io::Error::new(std::io::ErrorKind::NotFound, "no such file");
    assert_eq!(spawn_failure(&io).message(), "daemon: failed to spawn daemon: no such file");
}

/// Runs `--stop`'s decisions against scripted outcomes; returns the actions asked
/// for and the result.
fn run_stop(mut outcomes: Vec<StopEvent>) -> (Vec<StopAction>, Result<(), VisionError>) {
    let (mut state, action) = stop_start();
    let mut actions = vec![action];
    outcomes.reverse();
    loop {
        let e = outcomes.pop().expect("an outcome for every action");
        match stop_step(state, e) {
            StopStep::Next(s, a) => {
                state = s;
                actions.push(a);
            }
            StopStep::Finished(r) => return (actions, r),
        }
    }
}

#[test]
fn stop_acknowledged_by_the_daemon_sends_no_signal() {
    let (actions, r) = run_stop(vec![StopEvent::DaemonReplied(true), StopEvent::Paused]);
    assert!(r.is_ok());
    assert_eq!(actions, vec![StopAction::AskDaemon, StopAction::Pause(STOP_PAUSE_MS)]);
    assert_eq!(STOP_PAUSE_MS, 200);
}

#[test]
fn stop_without_pid_file_removes_files() {
    let (actions, r) = run_stop(vec![
        StopEvent::DaemonReplied(false),
        StopEvent::PidFileChecked(false),
        StopEvent::FilesRemoved,
    ]);
    assert!(r.is_ok());
    assert_eq!(actions, vec![StopAction::AskDaemon, StopAction::CheckPidFile, StopAction::RemoveFiles]);
}

#[test]
fn stop_with_malformed_or_unreadable_pid_file_fails_without_signal() {
    let (actions, r) = run_stop(vec![
        StopEvent::DaemonReplied(false),
        StopEvent::PidFileChecked(true),
        StopEvent::PidFileRead(Ok("abc\n".into())),
    ]);
    assert_eq!(r.unwrap_err().message(), "daemon: malformed pid file: \"abc\\n\"");
    assert_eq!(actions, vec![StopAction::AskDaemon, StopAction::CheckPidFile, StopAction::ReadPidFile]);
    let (_, r) = run_stop(vec![
        StopEvent::DaemonReplied(false),
        StopEvent::PidFileChecked(true),
        StopEvent::PidFileRead(Err(std::io::Error::new(std::io::ErrorKind::Other, "denied"))),
    ]);
    assert!(matches!(r, Err(VisionError::Io(_))));
}

#[test]
fn stop_failed_sigterm_sends_no_sigkill() {
    let (actions, r) = run_stop(vec![
        StopEvent::DaemonReplied(false),
        StopEvent::PidFileChecked(true),
        StopEvent::PidFileRead(Ok(" 42\n".into())),
        StopEvent::Signalled(false),
        StopEvent::FilesRemoved,
    ]);
    assert!(r.is_ok());
    assert_eq!(
        actions,
        vec![
            StopAction::AskDaemon,
            StopAction::CheckPidFile,
            StopAction::ReadPidFile,
            StopAction::Terminate(42),
            StopAction::RemoveFiles,
        ]
    );
}

#[test]
fn stop_kills_only_a_process_still_alive() {
    let (actions, r) = run_stop(vec![
        StopEvent::DaemonReplied(false),
        StopEvent::PidFileChecked(true),
        StopEvent::PidFileRead(Ok("42".into())),
        StopEvent::Signalled(true),
        StopEvent::Paused,
        StopEvent::Probed(true),
        StopEvent::Signalled(true),
        StopEvent::FilesRemoved,
    ]);
    assert!(r.is_ok());
    assert_eq!(
        actions,
        vec![
            StopAction::AskDaemon,
            StopAction::CheckPidFile,
            StopAction::ReadPidFile,
            StopAction::Terminate(42),
            StopAction::Pause(STOP_GRACE_MS),
            StopAction::Probe(42),
            StopAction::Kill(42),
            StopAction::RemoveFiles,
        ]
    );
    assert_eq!(STOP_GRACE_MS, 2000);
    let (actions, _) = run_stop(vec![
        StopEvent::DaemonReplied(false),
        StopEvent::PidFileChecked(true),
        StopEvent::PidFileRead(Ok("42".into())),
        StopEvent::Signalled(true),
        StopEvent::Paused,
        StopEvent::Probed(false),
        StopEvent::FilesRemoved,
    ]);
    assert!(!actions.contains(&StopAction::Kill(42)));
}

#[test]
fn stop_ignores_an_event_that_answers_nothing_asked() {
    match stop_step(StopState::Probing(7), StopEvent::Paused) {
        StopStep::Next(s, a) => {
            assert_eq!(s, StopState::Probing(7));
            assert_eq!(a, StopAction::Probe(7));
        }
        StopStep::Finished(_) => panic!("no step expected"),
    }
}
