//! How an invocation plans an analysis and what it reports.

use vision_analyze::cli::Args;
use vision_analyze::command::{
    build_request, check_image_size, check_two_images, daemon_started_line, health_line_cold,
    health_line_warm, image_path_of, log_filter, plan_inference, warm_response, MAX_IMAGE_BYTES,
};
use vision_analyze::command::{
    health_start, health_step, HealthAction, HealthEvent, HealthReport, HealthStep,
};
use vision_analyze::config::{BackendPreference, EffectiveConfig, OutputFormat};
use vision_analyze::error::VisionError;
use vision_analyze::presets::{Preset, PresetStore};
use vision_analyze::socket::SocketResponse;

fn args(image: Option<&str>, prompt: Option<&str>, preset: Option<&str>) -> Args {
    Args {
        model: None,
        mmproj: None,
        format: None,
        max_tokens: None,
        temperature_bits: None,
        timeout: None,
        preset: preset.map(|s| s.to_string()),
        image_b: None,
        backend: None,
        warm: false,
        stop: false,
        health: false,
        verbose: 0,
        daemon_internal: false,
        image: image.map(|s| s.to_string()),
        prompt: prompt.map(|s| s.to_string()),
    }
}

fn cfg() -> EffectiveConfig {
    EffectiveConfig {
        model: None,
        mmproj: None,
        format: OutputFormat::Text,
        max_tokens: 256,
        temperature_bits: 0,
        timeout_ms: 5000,
        llama_server_url: "http://127.0.0.1:8080".into(),
        llama_bin: None,
        backend: BackendPreference::Auto,
        socket_path: "/tmp/x.sock".into(),
        pid_path: "/tmp/x.pid".into(),
    }
}

#[test]
fn image_is_required_first() {
    let e = plan_inference(&args(None, None, Some("nope")), &cfg(), &PresetStore::builtin()).unwrap_err();
    assert!(matches!(&e, VisionError::InvalidArgs(m) if m == "image path required"));
    assert_eq!(e.message(), "invalid arguments: image path required");
    assert!(image_path_of(&args(Some("a.png"), None, None)).is_ok());
}

#[test]
fn prompt_without_preset() {
    let p = plan_inference(&args(Some("a.png"), Some("describe"), None), &cfg(), &PresetStore::builtin()).unwrap();
    assert_eq!(p.image_path, "a.png");
    assert_eq!(p.prompt, "describe");
    assert_eq!(p.format, OutputFormat::Text);
    assert!(!p.two_images);
    let e = plan_inference(&args(Some("a.png"), None, None), &cfg(), &PresetStore::builtin()).unwrap_err();
    assert!(matches!(&e, VisionError::InvalidArgs(m) if m == "prompt or --preset required"));
}

#[test]
fn preset_supplies_prompt_and_format() {
    let store = PresetStore::builtin();
    let ui = store.get("ui").unwrap().prompt.clone();
    let p = plan_inference(&args(Some("a.png"), Some(""), Some("ui")), &cfg(), &store).unwrap();
    assert_eq!(p.prompt, ui);
    assert_eq!(p.format, OutputFormat::Json);
    let p = plan_inference(&args(Some("a.png"), None, Some("ui-compare")), &cfg(), &store).unwrap();
    assert!(p.two_images);
    assert!(check_two_images(&p, false).is_err());
    assert!(check_two_images(&p, true).is_ok());
    let e = plan_inference(&args(Some("a.png"), Some("x"), Some("nope")), &cfg(), &store).unwrap_err();
    assert!(matches!(&e, VisionError::PresetNotFound(m) if m == "nope"));
}

#[test]
fn preset_without_known_format_keeps_configured_format() {
    let mut store = PresetStore::builtin();
    store.extend(PresetStore::from_entries(vec![(
        "plain".into(),
        Preset { prompt: "p".into(), format: Some("yaml".into()), two_images: false },
    )]));
    let mut c = cfg();
    c.format = OutputFormat::Json;
    let p = plan_inference(&args(Some("a.png"), None, Some("plain")), &c, &store).unwrap();
    assert_eq!(p.format, OutputFormat::Json);
}

#[test]
fn image_size_limit() {
    assert!(check_image_size(MAX_IMAGE_BYTES).is_ok());
    let e = check_image_size(MAX_IMAGE_BYTES + 1).unwrap_err();
    assert!(matches!(e, VisionError::ImageTooLarge(n, l) if n == 33554433 && l == 33554432));
    assert_eq!(e.message(), "image too large: 33554433 bytes (limit 33554432 bytes)");
}

#[test]
fn request_uses_configured_limits() {
    let p = plan_inference(&args(Some("a.png"), Some("describe"), None), &cfg(), &PresetStore::builtin()).unwrap();
    let r = build_request(&p, &cfg(), vec![1, 2], None);
    assert_eq!(r.prompt, "describe");
    assert_eq!(r.image, vec![1, 2]);
    assert_eq!(r.max_tokens, 256);
    assert_eq!(r.timeout_ms, 5000);
}

#[test]
fn warm_answers_other_than_success_fall_back() {
    let r = warm_response(SocketResponse::Success { text: "t".into(), tokens: 1, time_ms: 2, model: "m".into() });
    assert_eq!(r.map(|x| x.text), Some("t".to_string()));
    assert!(warm_response(SocketResponse::Error { error: "e".into(), code: "analysis_failed".into() }).is_none());
    assert!(warm_response(SocketResponse::Stopped).is_none());
}

#[test]
fn log_levels() {
    assert_eq!(log_filter(&None, 0), "warn");
    assert_eq!(log_filter(&None, 1), "info");
    assert_eq!(log_filter(&None, 2), "debug");
    assert_eq!(log_filter(&None, 9), "trace");
    assert_eq!(log_filter(&Some(String::new()), 1), "info");
    assert_eq!(log_filter(&Some("off".into()), 3), "off");
}

#[test]
fn report_lines() {
    assert_eq!(health_line_warm(), r#"{"status":"ok","mode":"warm"}"#);
    assert_eq!(health_line_cold("cli"), r#"{"status":"ok","mode":"cold","backend":"cli"}"#);
    assert_eq!(daemon_started_line("/tmp/v.sock"), "vision-analyze daemon started (socket: /tmp/v.sock)");
}

/// Runs `--health`'s decisions against scripted outcomes; returns the actions
/// asked for and how it ended.
fn run_health(
    mut outcomes: Vec<HealthEvent>,
) -> (Vec<HealthAction>, Result<HealthReport, VisionError>) {
    let (mut state, action) = health_start();
    let mut actions = vec![action];
    outcomes.reverse();
    loop {
        let e = outcomes.pop().expect("an outcome for every action");
        match health_step(state, e) {
            HealthStep::Next(s, a) => {
                state = s;
                actions.push(a);
            }
            HealthStep::Finished(r) => return (actions, r),
        }
    }
}

#[test]
fn health_warm_daemon_answers() {
    let (actions, r) = run_health(vec![HealthEvent::DaemonAnswered(true)]);
    assert_eq!(actions, vec![HealthAction::AskDaemon]);
    assert!(matches!(r, Ok(HealthReport::Healthy(l)) if l == r#"{"status":"ok","mode":"warm"}"#));
}

#[test]
fn health_cold_backend_passes() {
    let (actions, r) = run_health(vec![
        HealthEvent::DaemonAnswered(false),
        HealthEvent::Selected(Ok("cli")),
        HealthEvent::Checked(Ok(())),
    ]);
    assert_eq!(
        actions,
        vec![HealthAction::AskDaemon, HealthAction::SelectBackend, HealthAction::CheckBackend]
    );
    assert!(matches!(r, Ok(HealthReport::Healthy(l))
        if l == r#"{"status":"ok","mode":"cold","backend":"cli"}"#));
}

#[test]
fn health_without_backend_reports_exit_code_2() {
    let (_, r) = run_health(vec![
        HealthEvent::DaemonAnswered(false),
        HealthEvent::Selected(Err(VisionError::BackendUnavailable("none".into()))),
    ]);
    assert!(matches!(r, Ok(HealthReport::NoBackend(VisionError::BackendUnavailable(_), 2))));
    let (_, r) = run_health(vec![
        HealthEvent::DaemonAnswered(false),
        HealthEvent::Selected(Err(VisionError::InvalidArgs("x".into()))),
    ]);
    assert!(matches!(r, Ok(HealthReport::NoBackend(_, 1))));
}

#[test]
fn health_failed_backend_check_fails_the_command() {
    let (_, r) = run_health(vec![
        HealthEvent::DaemonAnswered(false),
        HealthEvent::Selected(Ok("server")),
        HealthEvent::Checked(Err(VisionError::BackendUnavailable("health http 500".into()))),
    ]);
    let e = r.unwrap_err();
    assert_eq!(e.exit_code(), 2);
    assert_eq!(e.message(), "backend unavailable: health http 500");
}
