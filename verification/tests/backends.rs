//! The command-line and HTTP backends: arguments, replies, and selection.

use vision_analyze::client::cli::{strip_cli_noise, CliClient};
use vision_analyze::client::detect::{probes_server, select};
use vision_analyze::client::server::{
    ChatResponse, Choice, ChoiceMessage, HttpReply, MessagePart, ServerClient, TransportFailure,
    Usage,
};
use vision_analyze::client::{encode_b64, resolve_model_path, Backend, InferenceRequest};
use vision_analyze::config::{BackendPreference, EffectiveConfig, OutputFormat};
use vision_analyze::error::VisionError;

fn cfg(backend: BackendPreference, model: Option<&str>) -> EffectiveConfig {
    EffectiveConfig {
        model: model.map(|m| m.to_string()),
        mmproj: Some("/m/mmproj.gguf".into()),
        format: OutputFormat::Text,
        max_tokens: 256,
        temperature_bits: 0,
        timeout_ms: 5000,
        llama_server_url: "http://127.0.0.1:8080/".into(),
        llama_bin: None,
        backend,
        socket_path: "/tmp/x.sock".into(),
        pid_path: "/tmp/x.pid".into(),
    }
}

fn request(image_b: Option<Vec<u8>>) -> InferenceRequest {
    InferenceRequest {
        prompt: "describe".into(),
        image: vec![1, 2, 3],
        image_b,
        max_tokens: 64,
        temperature_bits: 0,
        timeout_ms: 5000,
    }
}

#[test]
fn strip_noise_removes_llama_banners() {
    let raw =
        "llama_model_loader: loaded\nggml_metal_init: ok\nmain: starting\nThis is the answer.";
    assert_eq!(strip_cli_noise(raw), "This is the answer.");
}

#[test]
fn strip_noise_keeps_answer_lines_and_trims() {
    let raw = "  first line\r\nllama_x\nsecond line \nmain:not a banner\n\n";
    assert_eq!(strip_cli_noise(raw), "first line\nsecond line \nmain:not a banner");
    assert_eq!(strip_cli_noise(""), "");
}

#[test]
fn trims_trailing_slash_in_base_url() {
    let c = ServerClient::new("http://127.0.0.1:8080///").expect("client");
    assert_eq!(c.base_url(), "http://127.0.0.1:8080");
}

#[test]
fn server_urls() {
    let c = ServerClient::new("http://h:1/").expect("client");
    assert_eq!(c.health_url(), "http://h:1/health");
    assert_eq!(c.completions_url(), "http://h:1/v1/chat/completions");
    assert_eq!(ServerClient::probe_url("http://h:1//"), "http://h:1/health");
}

#[test]
fn chat_request_holds_prompt_and_images() {
    let body = ServerClient::chat_request(&request(Some(vec![255])));
    assert_eq!(body.model, "vision");
    assert!(!body.stream);
    assert_eq!(body.max_tokens, 64);
    assert_eq!(body.messages.len(), 1);
    assert_eq!(body.messages[0].role, "user");
    let parts = &body.messages[0].content;
    assert_eq!(parts.len(), 3);
    assert!(matches!(&parts[0], MessagePart::Text { text } if text == "describe"));
    assert!(matches!(&parts[1], MessagePart::ImageUrl { image_url } if image_url.url == "data:image/png;base64,AQID"));
    assert!(matches!(&parts[2], MessagePart::ImageUrl { image_url } if image_url.url == "data:image/png;base64,/w=="));
}

#[test]
fn base64_encoding_is_standard_with_padding() {
    assert_eq!(encode_b64(b""), "");
    assert_eq!(encode_b64(b"f"), "Zg==");
    assert_eq!(encode_b64(b"fo"), "Zm8=");
    assert_eq!(encode_b64(b"foo"), "Zm9v");
    assert_eq!(encode_b64(b"hello world~"), "aGVsbG8gd29ybGR+");
}

fn ok_reply(body: &str) -> Result<HttpReply, TransportFailure> {
    Ok(HttpReply { success: true, status: "200 OK".into(), body: body.into() })
}

#[test]
fn reply_with_choice_gives_response() {
    let parsed = ChatResponse {
        model: Some("qwen2-vl-2b".into()),
        choices: vec![Choice { message: ChoiceMessage { content: "hello world".into() } }],
        usage: Some(Usage { completion_tokens: 5 }),
    };
    let r = ServerClient::interpret_reply(ok_reply("{}"), Ok(parsed), 42).unwrap();
    assert_eq!(r.text, "hello world");
    assert_eq!(r.tokens, 5);
    assert_eq!(r.time_ms, 42);
    assert_eq!(r.model, "qwen2-vl-2b");
}

#[test]
fn reply_without_usage_or_model_defaults() {
    let parsed = ChatResponse {
        model: None,
        choices: vec![Choice { message: ChoiceMessage { content: "result text".into() } }],
        usage: None,
    };
    let r = ServerClient::interpret_reply(ok_reply("{}"), Ok(parsed), 1).unwrap();
    assert_eq!(r.tokens, 0);
    assert_eq!(r.model, "unknown");
}

#[test]
fn reply_without_choices_is_an_analysis_error() {
    let parsed = ChatResponse { model: None, choices: vec![], usage: None };
    let e = ServerClient::interpret_reply(ok_reply("{}"), Ok(parsed), 1).unwrap_err();
    assert!(matches!(&e, VisionError::Analysis(m) if m == "server returned no choices"));
    assert_eq!(e.exit_code(), 1);
}

#[test]
fn error_status_extracts_openai_message() {
    let sent = Ok(HttpReply {
        success: false,
        status: "400 Bad Request".into(),
        body: r#"{"error": {"message": "model not loaded", "type": "invalid_request_error"}}"#.into(),
    });
    let e = ServerClient::interpret_reply(sent, Err("unused".into()), 1).unwrap_err();
    assert!(matches!(&e, VisionError::Analysis(m) if m == "server http 400 Bad Request: model not loaded"));
    assert!(e.message().contains("model not loaded"));
}

#[test]
fn error_status_without_json_keeps_first_200_chars() {
    let long = "x".repeat(300);
    let sent = Ok(HttpReply { success: false, status: "500 Internal Server Error".into(), body: long.clone() });
    let e = ServerClient::interpret_reply(sent, Err("unused".into()), 1).unwrap_err();
    let expected = format!("server http 500 Internal Server Error: {}", &long[..200]);
    assert!(matches!(&e, VisionError::Analysis(m) if *m == expected));
}

#[test]
fn parse_failure_and_transport_failures() {
    let e = ServerClient::interpret_reply(ok_reply("not json"), Err("expected value".into()), 1).unwrap_err();
    assert!(matches!(&e, VisionError::Analysis(m) if m == "server parse: expected value; body: not json"));
    let e = ServerClient::interpret_reply(Err(TransportFailure::Request("refused".into())), Err(String::new()), 1).unwrap_err();
    assert!(matches!(&e, VisionError::Analysis(m) if m == "server request: refused"));
    let e = ServerClient::interpret_reply(Err(TransportFailure::ReadBody("cut".into())), Err(String::new()), 1).unwrap_err();
    assert!(matches!(&e, VisionError::Analysis(m) if m == "server read body: cut"));
}

#[test]
fn server_health_result() {
    assert!(ServerClient::health_result(&Ok((true, "200 OK".into()))).is_ok());
    let e = ServerClient::health_result(&Ok((false, "500 Internal Server Error".into()))).unwrap_err();
    assert!(matches!(&e, VisionError::BackendUnavailable(m) if m == "health http 500 Internal Server Error"));
    assert_eq!(e.exit_code(), 2);
    let e = ServerClient::health_result(&Err("timed out".into())).unwrap_err();
    assert!(matches!(&e, VisionError::BackendUnavailable(m) if m == "health: timed out"));
}

#[test]
fn cli_arguments() {
    let c = CliClient::new("/bin/llama-cli".into(), "/m/model.gguf".into(), Some("/m/mmproj.gguf".into()));
    let args = c.command_args(&request(Some(vec![1])), "/tmp/a.png", "/tmp/b.png", "0.7");
    assert_eq!(
        args,
        vec!["-m", "/m/model.gguf", "--mmproj", "/m/mmproj.gguf", "--image", "/tmp/a.png",
             "--image", "/tmp/b.png", "-n", "64", "--temp", "0.7", "-p", "describe"]
    );
    let c = CliClient::new("/bin/llama-cli".into(), "/m/model.gguf".into(), None);
    let args = c.command_args(&request(None), "/tmp/a.png", "/tmp/b.png", "0");
    assert_eq!(args, vec!["-m", "/m/model.gguf", "--image", "/tmp/a.png", "-n", "64", "--temp", "0", "-p", "describe"]);
}

#[test]
fn cli_output_interpretation() {
    let c = CliClient::new("/bin/llama-cli".into(), "/m/qwen.gguf".into(), None);
    let r = c.interpret_output(true, Some(0), "llama_x: y\nAnswer.\n", "", 12).unwrap();
    assert_eq!(r.text, "Answer.");
    assert_eq!(r.tokens, 0);
    assert_eq!(r.time_ms, 12);
    assert_eq!(r.model, "qwen.gguf");
    let e = c.interpret_output(false, Some(-3), "", "a\nb\nc\nd\n", 1).unwrap_err();
    assert!(matches!(&e, VisionError::Analysis(m) if m == "llama-cli exit Some(-3): d | c | b"));
    let e = c.interpret_output(false, None, "", "only", 1).unwrap_err();
    assert!(matches!(&e, VisionError::Analysis(m) if m == "llama-cli exit None: only"));
}

#[test]
fn cli_health_and_binary_choice() {
    let c = CliClient::new("/b".into(), "/m".into(), None);
    assert!(c.health_result(true, true).is_ok());
    assert!(matches!(c.health_result(false, true), Err(VisionError::BackendUnavailable(m)) if m == "llama binary not found at /b"));
    assert!(matches!(c.health_result(true, false), Err(VisionError::ModelNotFound(m)) if m == "model not found at /m"));
    let found = vec![None, Some("/usr/bin/llama-cli".to_string())];
    assert_eq!(CliClient::choose_binary(&Some("/c".into()), true, &found).as_deref(), Some("/c"));
    assert_eq!(CliClient::choose_binary(&Some("/c".into()), false, &found).as_deref(), Some("/usr/bin/llama-cli"));
    assert_eq!(CliClient::choose_binary(&None, false, &vec![None, None]), None);
    assert_eq!(CliClient::binary_candidates(), ["llama-mtmd-cli", "llama-cli"]);
}

#[test]
fn selection_prefers_reachable_server() {
    let b = select(&cfg(BackendPreference::Auto, Some("/m")), true, None).unwrap();
    assert_eq!(b.label(), "server");
    assert!(matches!(&b, Backend::Server(s) if s.base_url() == "http://127.0.0.1:8080"));
    let b = select(&cfg(BackendPreference::Auto, Some("/m")), false, Some("/bin/cli".into())).unwrap();
    assert_eq!(b.label(), "cli");
}

#[test]
fn selection_failures() {
    let e = select(&cfg(BackendPreference::Server, Some("/m")), false, None).unwrap_err();
    assert!(matches!(&e, VisionError::BackendUnavailable(m) if m == "llama-server not reachable at http://127.0.0.1:8080/"));
    let e = select(&cfg(BackendPreference::Cli, None), false, Some("/bin/cli".into())).unwrap_err();
    assert!(matches!(&e, VisionError::ModelNotFound(_)));
    assert_eq!(e.exit_code(), 2);
    let e = select(&cfg(BackendPreference::Cli, Some("/m")), true, None).unwrap_err();
    assert!(matches!(&e, VisionError::BackendUnavailable(m) if m == "no llama-cli/llama-mtmd-cli in PATH (set VISION_LLAMA_BIN)"));
    let e = select(&cfg(BackendPreference::Auto, None), false, Some("/bin/cli".into())).unwrap_err();
    assert!(matches!(&e, VisionError::BackendUnavailable(m) if m.starts_with("neither llama-server (probed http://127.0.0.1:8080/) nor")));
    assert!(probes_server(BackendPreference::Auto));
    assert!(!probes_server(BackendPreference::Cli));
}

#[test]
fn missing_model_path_is_model_not_found() {
    let e = resolve_model_path(&cfg(BackendPreference::Cli, None)).unwrap_err();
    assert_eq!(e.message(), "model not found: model path not configured (set --model or $VISION_MODEL_PATH)");
    assert_eq!(resolve_model_path(&cfg(BackendPreference::Cli, Some("/m"))).unwrap(), "/m");
}

#[test]
fn base64_output_length_and_alphabet() {
    assert_eq!(encode_b64(b"hi"), "aGk=");
    for n in 0..10usize {
        let bytes: Vec<u8> = (0..n).map(|i| (i * 97 + 250) as u8).collect();
        let s = encode_b64(&bytes);
        assert_eq!(s.len(), 4 * ((n + 2) / 3));
        for (i, c) in s.chars().enumerate() {
            let ok = c.is_ascii_alphanumeric() || c == '+' || c == '/';
            assert!(ok || (c == '=' && i + 2 >= s.len()), "{s}");
        }
    }
}
