//! Format and backend names, and the merge of flags, environment and defaults.

use vision_analyze::cli::{Args, Mode};
use vision_analyze::config::{
    default_model_path_in, user_presets_path_in,
};
use vision_analyze::config::{
    mmproj_candidates, user_presets_path_for, BackendPreference, EffectiveConfig, EnvVars,
    OutputFormat,
};

fn no_args() -> Args {
    Args {
        model: None,
        mmproj: None,
        format: None,
        max_tokens: None,
        temperature_bits: None,
        timeout: None,
        preset: None,
        image_b: None,
        backend: None,
        warm: false,
        stop: false,
        health: false,
        verbose: 0,
        daemon_internal: false,
        image: None,
        prompt: None,
    }
}

fn no_env() -> EnvVars {
    EnvVars {
        model_path: None,
        mmproj_path: None,
        default_format: None,
        max_tokens: None,
        timeout: None,
        llama_server: None,
        llama_bin: None,
        socket_path: None,
        pid_path: None,
    }
}

#[test]
fn output_format_parse() {
    assert_eq!(OutputFormat::parse("json"), Some(OutputFormat::Json));
    assert_eq!(OutputFormat::parse("TEXT"), Some(OutputFormat::Text));
    assert_eq!(OutputFormat::parse("yaml"), None);
}

#[test]
fn backend_pref_parse() {
    assert_eq!(
        BackendPreference::parse("auto"),
        Some(BackendPreference::Auto)
    );
    assert_eq!(
        BackendPreference::parse("Server"),
        Some(BackendPreference::Server)
    );
    assert_eq!(BackendPreference::parse("native"), None);
}

#[test]
fn format_aliases_and_case() {
    assert_eq!(OutputFormat::parse("txt"), Some(OutputFormat::Text));
    assert_eq!(OutputFormat::parse("Plain"), Some(OutputFormat::Text));
    assert_eq!(OutputFormat::parse("JsOn"), Some(OutputFormat::Json));
    assert_eq!(OutputFormat::parse(""), None);
    assert_eq!(OutputFormat::parse("json "), None);
    assert_eq!(BackendPreference::parse("CLI"), Some(BackendPreference::Cli));
    assert_eq!(OutputFormat::Json.name(), "json");
    assert_eq!(OutputFormat::Text.name(), "text");
}

#[test]
fn defaults_apply_without_flags_or_env() {
    let c = EffectiveConfig::build(&no_args(), &no_env(), &None, &None);
    assert_eq!(c.model, None);
    assert_eq!(c.mmproj, None);
    assert_eq!(c.format, OutputFormat::Text);
    assert_eq!(c.max_tokens, 1024);
    assert_eq!(c.temperature_bits, 0);
    assert_eq!(c.timeout_ms, 30000);
    assert_eq!(c.llama_server_url, "http://127.0.0.1:8080");
    assert_eq!(c.llama_bin, None);
    assert_eq!(c.backend, BackendPreference::Auto);
    assert_eq!(c.socket_path, "/tmp/vision-analyze.sock");
    assert_eq!(c.pid_path, "/tmp/vision-analyze.pid");
}

#[test]
fn flags_take_precedence_over_env() {
    let mut a = no_args();
    a.model = Some("/flag/model.gguf".into());
    a.format = Some("json".into());
    a.max_tokens = Some(7);
    a.timeout = Some(99);
    a.temperature_bits = Some(0.5f32.to_bits());
    a.backend = Some("cli".into());
    let mut e = no_env();
    e.model_path = Some("/env/model.gguf".into());
    e.default_format = Some("text".into());
    e.max_tokens = Some("12".into());
    e.timeout = Some("13".into());
    let c = EffectiveConfig::build(&a, &e, &Some("/home/model.gguf".into()), &None);
    assert_eq!(c.model.as_deref(), Some("/flag/model.gguf"));
    assert_eq!(c.format, OutputFormat::Json);
    assert_eq!(c.max_tokens, 7);
    assert_eq!(c.timeout_ms, 99);
    assert_eq!(f32::from_bits(c.temperature_bits), 0.5);
    assert_eq!(c.backend, BackendPreference::Cli);
}

#[test]
fn env_takes_precedence_over_defaults() {
    let mut e = no_env();
    e.model_path = Some("/env/model.gguf".into());
    e.mmproj_path = Some("/env/mmproj.gguf".into());
    e.default_format = Some("JSON".into());
    e.max_tokens = Some("+12".into());
    e.timeout = Some("1300".into());
    e.llama_server = Some("http://h:1".into());
    e.llama_bin = Some("/bin/llama".into());
    e.socket_path = Some("/s.sock".into());
    e.pid_path = Some("/p.pid".into());
    let c = EffectiveConfig::build(&no_args(), &e, &Some("/home/model.gguf".into()), &Some("/guess".into()));
    assert_eq!(c.model.as_deref(), Some("/env/model.gguf"));
    assert_eq!(c.mmproj.as_deref(), Some("/env/mmproj.gguf"));
    assert_eq!(c.format, OutputFormat::Json);
    assert_eq!(c.max_tokens, 12);
    assert_eq!(c.timeout_ms, 1300);
    assert_eq!(c.llama_server_url, "http://h:1");
    assert_eq!(c.llama_bin.as_deref(), Some("/bin/llama"));
    assert_eq!(c.socket_path, "/s.sock");
    assert_eq!(c.pid_path, "/p.pid");
}

#[test]
fn empty_or_malformed_env_values_are_ignored() {
    let mut e = no_env();
    e.model_path = Some(String::new());
    e.max_tokens = Some("lots".into());
    e.timeout = Some("-5".into());
    e.default_format = Some("yaml".into());
    e.llama_server = Some(String::new());
    let c = EffectiveConfig::build(&no_args(), &e, &Some("/home/m.gguf".into()), &Some("/home/mmproj.gguf".into()));
    assert_eq!(c.model.as_deref(), Some("/home/m.gguf"));
    assert_eq!(c.mmproj.as_deref(), Some("/home/mmproj.gguf"));
    assert_eq!(c.max_tokens, 1024);
    assert_eq!(c.timeout_ms, 30000);
    assert_eq!(c.format, OutputFormat::Text);
    assert_eq!(c.llama_server_url, "http://127.0.0.1:8080");
}

#[test]
fn env_number_out_of_range_is_ignored() {
    let mut e = no_env();
    e.max_tokens = Some("4294967296".into());
    let c = EffectiveConfig::build(&no_args(), &e, &None, &None);
    assert_eq!(c.max_tokens, 1024);
    e.max_tokens = Some("4294967295".into());
    let c = EffectiveConfig::build(&no_args(), &e, &None, &None);
    assert_eq!(c.max_tokens, u32::MAX);
}

#[test]
fn unknown_backend_flag_falls_back_to_auto() {
    let mut a = no_args();
    a.backend = Some("native".into());
    let c = EffectiveConfig::build(&a, &no_env(), &None, &None);
    assert_eq!(c.backend, BackendPreference::Auto);
}

#[test]
fn mmproj_candidates_sit_next_to_the_model() {
    let c = mmproj_candidates("/path/to/qwen2-vl.gguf");
    assert_eq!(
        c,
        vec![
            "/path/to/mmproj.gguf".to_string(),
            "/path/to/mmproj-model.gguf".to_string(),
            "/path/to/qwen2-vl.mmproj.gguf".to_string(),
        ]
    );
    assert!(mmproj_candidates("/").is_empty());
}

#[test]
fn user_presets_file_is_in_the_config_dir() {
    assert_eq!(user_presets_path_for("/home/a/.vision-analyze"), "/home/a/.vision-analyze/presets.json");
}

#[test]
fn mode_follows_flag_order() {
    let mut a = no_args();
    assert_eq!(a.mode(), Mode::Inference);
    assert!(a.is_inference());
    a.health = true;
    assert_eq!(a.mode(), Mode::Health);
    assert!(!a.is_inference());
    a.stop = true;
    assert_eq!(a.mode(), Mode::Stop);
    a.warm = true;
    assert_eq!(a.mode(), Mode::Warm);
    a.daemon_internal = true;
    assert_eq!(a.mode(), Mode::DaemonInternal);
}

#[test]
fn config_paths_under_a_home_directory() {
    assert_eq!(EffectiveConfig::config_dir_in("/home/a"), "/home/a/.vision-analyze");
    assert_eq!(EffectiveConfig::config_dir_in("/home/a/"), "/home/a/.vision-analyze");
    assert_eq!(default_model_path_in("/home/a"), "/home/a/.vision-analyze/model.gguf");
    assert_eq!(user_presets_path_in("/root"), "/root/.vision-analyze/presets.json");
    assert_eq!(user_presets_path_for("/etc/"), "/etc/presets.json");
}
