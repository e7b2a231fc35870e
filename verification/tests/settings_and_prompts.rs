use voicetyping::commands::validate_translate_hotkey;
use voicetyping::config::Config;
use voicetyping::hotkey::{parse_key, HotKey};
use voicetyping::prompt::build_translate_system_prompt;

fn make_config(hotkey: &str, translate_hotkey: &str) -> Config {
    let mut cfg = Config::default();
    cfg.hotkey = hotkey.to_string();
    cfg.translate_hotkey = translate_hotkey.to_string();
    cfg
}

#[test]
fn allows_empty_translate_hotkey() {
    assert!(validate_translate_hotkey("right_alt", "").is_ok());
}

#[test]
fn rejects_same_as_main() {
    assert!(validate_translate_hotkey("right_alt", "right_alt").is_err());
}

#[test]
fn rejects_same_key_via_alias() {
    assert!(validate_translate_hotkey("right_alt", "alt_right").is_err());
}

#[test]
fn rejects_unparseable() {
    assert!(validate_translate_hotkey("right_alt", "caps_lock").is_err());
}

#[test]
fn accepts_distinct_valid_keys() {
    assert!(validate_translate_hotkey("right_alt", "right_ctrl").is_ok());
}

#[test]
fn defaults_are_english_and_right_ctrl() {
    let cfg = Config::default();
    assert_eq!(cfg.target_language, "English");
    assert_eq!(cfg.translate_hotkey, "right_ctrl");
}

#[test]
fn resolved_translate_key_enabled_by_default() {
    let cfg = Config::default();
    assert!(matches!(cfg.resolved_translate_key(), Ok(Some(_))));
}

#[test]
fn resolved_translate_key_none_when_empty() {
    let cfg = make_config("right_alt", "");
    assert!(matches!(cfg.resolved_translate_key(), Ok(None)));
}

#[test]
fn resolved_translate_key_conflict_when_same_as_main() {
    let cfg = make_config("right_alt", "right_alt");
    assert!(cfg.resolved_translate_key().is_err());
}

#[test]
fn resolved_translate_key_conflict_across_aliases() {
    let cfg = make_config("right_alt", "alt_right");
    assert!(cfg.resolved_translate_key().is_err());
}

#[test]
fn resolved_translate_key_err_when_unparseable() {
    let cfg = make_config("right_alt", "no_such_key");
    assert!(cfg.resolved_translate_key().is_err());
}

#[test]
fn parses_right_alt_aliases() {
    assert_eq!(parse_key("right_alt"), Some(HotKey::AltGr));
    assert_eq!(parse_key("Right-Alt"), Some(HotKey::AltGr));
    assert_eq!(parse_key("altgr"), Some(HotKey::AltGr));
}

#[test]
fn parses_right_ctrl_aliases() {
    assert_eq!(parse_key("right_ctrl"), Some(HotKey::ControlRight));
}

#[test]
fn rejects_unknown_key() {
    assert_eq!(parse_key("caps_lock"), None);
}

#[test]
fn no_longer_recognizes_removed_keys() {
    assert_eq!(parse_key("scroll_lock"), None);
    assert_eq!(parse_key("pause"), None);
    assert_eq!(parse_key("insert"), None);
}

#[test]
fn translate_prompt_includes_target_language() {
    let prompt = build_translate_system_prompt("Japanese", "", false);
    assert!(prompt.contains("Japanese"));
    assert!(!prompt.contains("{target_language}"));
}

#[test]
fn translate_prompt_falls_back_to_english_when_target_language_empty() {
    let prompt = build_translate_system_prompt("", "", false);
    assert!(prompt.contains("English"));
    assert!(!prompt.contains("【】"));
    assert!(!prompt.contains("{target_language}"));
}

#[test]
fn translate_prompt_falls_back_to_english_when_target_language_whitespace_only() {
    let prompt = build_translate_system_prompt("   ", "", false);
    assert!(prompt.contains("English"));
    assert!(!prompt.contains("【】"));
}

#[test]
fn translate_prompt_includes_vocabulary_when_present() {
    let prompt = build_translate_system_prompt("English", "Tauri, cpal", false);
    assert!(prompt.contains("Tauri, cpal"));
}

#[test]
fn translate_prompt_omits_vocabulary_when_empty() {
    let prompt = build_translate_system_prompt("English", "", false);
    assert!(!prompt.contains("詞彙表開始"));
}

#[test]
fn translate_prompt_includes_formatting_when_enabled() {
    let prompt = build_translate_system_prompt("English", "", true);
    assert!(prompt.contains("智慧排版"));
}

#[test]
fn translate_prompt_omits_formatting_when_disabled() {
    let prompt = build_translate_system_prompt("English", "", false);
    assert!(!prompt.contains("智慧排版"));
}
