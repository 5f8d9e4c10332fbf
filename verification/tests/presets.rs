//! Built-in presets and user overrides.

use vision_analyze::config::OutputFormat;
use vision_analyze::error::VisionError;
use vision_analyze::presets::{
    Preset, PresetStore, ELEMENT_FIND_PROMPT, ERROR_PROMPT, SCROLL_CHECK_PROMPT, UI_COMPARE_PROMPT,
    UI_PROMPT,
};

/// Builds a store from a `presets.json` text, the shape users write.
fn user_store(json: &str) -> PresetStore {
    let v: serde_json::Value = serde_json::from_str(json).expect("valid presets JSON");
    let obj = v.as_object().expect("an object of presets");
    let mut entries = Vec::new();
    for (name, p) in obj {
        let prompt = p["prompt"].as_str().expect("prompt").to_string();
        let format = p.get("format").and_then(|f| f.as_str()).map(|f| f.to_string());
        let two_images = p.get("two_images").and_then(|t| t.as_bool()).unwrap_or(false);
        entries.push((
            name.clone(),
            Preset {
                prompt,
                format,
                two_images,
            },
        ));
    }
    PresetStore::from_entries(entries)
}

fn overlaid(json: &str) -> PresetStore {
    let mut store = PresetStore::builtin();
    store.extend(user_store(json));
    store
}

#[test]
fn builtin_presets_load() {
    let store = PresetStore::builtin();
    for name in ["ui", "ui-compare", "error", "element-find", "scroll-check"] {
        store
            .get(name)
            .unwrap_or_else(|_| panic!("missing preset: {name}"));
    }
}

#[test]
fn two_images_flag_propagates() {
    let store = PresetStore::builtin();
    assert!(store.get("ui-compare").unwrap().two_images);
    assert!(!store.get("ui").unwrap().two_images);
}

#[test]
fn unknown_preset_errors() {
    let store = PresetStore::builtin();
    assert!(matches!(
        store.get("nope"),
        Err(VisionError::PresetNotFound(_))
    ));
}

#[test]
fn preset_format_parsed() {
    let store = PresetStore::builtin();
    assert_eq!(
        store.get("ui").unwrap().output_format(),
        Some(OutputFormat::Json)
    );
}

#[test]
fn user_preset_overrides_builtin_ui_prompt() {
    let custom_json =
        r#"{"ui": {"prompt": "CUSTOM_UI_PROMPT", "format": "text", "two_images": false}}"#;
    let store = overlaid(custom_json);
    let preset = store.get("ui").expect("ui preset");
    assert_eq!(preset.prompt, "CUSTOM_UI_PROMPT");
}

#[test]
fn user_can_add_new_preset() {
    let custom_json = r#"{"my-custom": {"prompt": "describe the sky", "two_images": false}}"#;
    let store = overlaid(custom_json);
    let preset = store.get("my-custom").expect("my-custom preset");
    assert_eq!(preset.prompt, "describe the sky");
}

#[test]
fn user_override_does_not_remove_other_builtins() {
    let custom_json = r#"{"ui": {"prompt": "OVERRIDE", "two_images": false}}"#;
    let store = overlaid(custom_json);
    for name in ["ui-compare", "error", "element-find", "scroll-check"] {
        store
            .get(name)
            .unwrap_or_else(|_| panic!("built-in preset '{name}' should survive user override"));
    }
}

#[test]
fn user_override_format_field_propagates() {
    let custom_json =
        r#"{"error": {"prompt": "find errors", "format": "text", "two_images": false}}"#;
    let store = overlaid(custom_json);
    let preset = store.get("error").expect("error preset");
    assert_eq!(preset.output_format(), Some(OutputFormat::Text));
}

#[test]
fn user_override_two_images_flag() {
    let custom_json = r#"{"ui": {"prompt": "compare", "two_images": true}}"#;
    let store = overlaid(custom_json);
    assert!(store.get("ui").unwrap().two_images);
}

#[test]
fn later_entry_of_a_name_wins() {
    let a = Preset { prompt: "first".into(), format: None, two_images: false };
    let b = Preset { prompt: "second".into(), format: Some("json".into()), two_images: true };
    let store = PresetStore::from_entries(vec![("x".into(), a), ("x".into(), b)]);
    let p = store.get("x").unwrap();
    assert_eq!(p.prompt, "second");
    assert!(p.two_images);
    assert_eq!(store.names(), vec!["x".to_string()]);
}

#[test]
fn names_lists_each_builtin_once() {
    let mut names = overlaid(r#"{"ui": {"prompt": "o"}, "extra": {"prompt": "e"}}"#).names();
    names.sort();
    assert_eq!(
        names,
        vec!["element-find", "error", "extra", "scroll-check", "ui", "ui-compare"]
    );
}

#[test]
fn unknown_preset_error_names_the_preset() {
    let e = PresetStore::builtin().get("nope").err().unwrap();
    assert_eq!(e.message(), "preset 'nope' not found");
    assert_eq!(e.exit_code(), 1);
}

#[test]
fn unknown_format_name_gives_no_format() {
    let p = Preset { prompt: "p".into(), format: Some("yaml".into()), two_images: false };
    assert_eq!(p.output_format(), None);
    let q = Preset { prompt: "p".into(), format: None, two_images: false };
    assert_eq!(q.output_format(), None);
}

#[test]
fn builtin_two_image_presets_are_the_comparisons() {
    let store = PresetStore::builtin();
    for name in ["ui-compare", "scroll-check"] {
        assert!(store.get(name).unwrap().two_images, "{name}");
    }
    for name in ["ui", "error", "element-find"] {
        assert!(!store.get(name).unwrap().two_images, "{name}");
    }
    for name in ["ui", "ui-compare", "error", "element-find", "scroll-check"] {
        assert_eq!(store.get(name).unwrap().output_format(), Some(OutputFormat::Json));
    }
}

#[test]
fn builtin_prompts_are_the_named_texts() {
    let store = PresetStore::builtin();
    let expected = [
        ("ui", UI_PROMPT),
        ("ui-compare", UI_COMPARE_PROMPT),
        ("error", ERROR_PROMPT),
        ("element-find", ELEMENT_FIND_PROMPT),
        ("scroll-check", SCROLL_CHECK_PROMPT),
    ];
    for (name, prompt) in expected {
        assert_eq!(store.get(name).unwrap().prompt, prompt);
        assert!(!prompt.is_empty());
    }
    assert!(UI_PROMPT.contains("visual_defects") && UI_PROMPT.contains("overall_status"));
    assert!(ERROR_PROMPT.contains("error_found") && ERROR_PROMPT.contains("severity"));
    assert!(SCROLL_CHECK_PROMPT.contains("reached_end"));
}
