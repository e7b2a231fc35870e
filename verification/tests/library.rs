use voicetyping::commands::{apply_config_update, config_view, validate_target_language, ConfigUpdate};
use voicetyping::config::{resolve_key, Config, TranslateKeyError};
use voicetyping::controller::{
    error_tooltip, overlay_for, tray_tooltip, Controller, ControllerAction, ControllerEvent, OverlayView,
};
use voicetyping::history::{add_entry, entry_for, HistoryEntry, MAX_HISTORY_ENTRIES};
use voicetyping::hotkey::{HotKey, HotkeyLatch};
use voicetyping::pipeline::{check_transcript, finish_llm, plan_llm, LlmStep, Output};
use voicetyping::prompt::{
    build_system_prompt, correct_request, normalize_vocabulary_for_prompt, stt_prompt, translate_request,
    BASE_SYSTEM_PROMPT, FORMATTING_ADDENDUM,
};
use voicetyping::reply::{chat_content_from_reply, transcript_from_reply, LlmError, SttError};
use voicetyping::state::{AppState, OutputMode};
use voicetyping::text::{is_blank_str, replace_str, trim_str};

fn update_from(cfg: &Config) -> ConfigUpdate {
    ConfigUpdate {
        stt_api_key: String::new(),
        stt_api_url: cfg.stt_api_url.clone(),
        stt_model: cfg.stt_model.clone(),
        llm_api_key: String::new(),
        llm_api_url: cfg.llm_api_url.clone(),
        llm_model: cfg.llm_model.clone(),
        enable_correction: cfg.enable_correction,
        hotkey: cfg.hotkey.clone(),
        vocabulary: cfg.vocabulary.clone(),
        enable_formatting: cfg.enable_formatting,
        target_language: cfg.target_language.clone(),
        translate_hotkey: cfg.translate_hotkey.clone(),
    }
}

#[test]
fn trim_removes_unicode_whitespace() {
    assert_eq!(trim_str("\u{3000} key \n"), "key");
    assert_eq!(trim_str("a b"), "a b");
    assert_eq!(trim_str(" \t "), "");
    assert!(is_blank_str("\u{a0}\u{2003}"));
    assert!(!is_blank_str(" x "));
}

#[test]
fn replace_replaces_every_occurrence_left_to_right() {
    assert_eq!(replace_str("{x}-{x}", "{x}", "ab"), "ab-ab");
    assert_eq!(replace_str("aaa", "aa", "b"), "ba");
    assert_eq!(replace_str("abc", "", "z"), "abc");
    assert_eq!(replace_str("ab", "abc", "z"), "ab");
}

#[test]
fn vocabulary_is_joined_on_one_line() {
    assert_eq!(normalize_vocabulary_for_prompt("Tauri，cpal\n  hound ,, "), "Tauri, cpal, hound");
    assert_eq!(normalize_vocabulary_for_prompt(""), "");
    assert_eq!(normalize_vocabulary_for_prompt(" , \n"), "");
    assert_eq!(stt_prompt(" , "), None);
    assert_eq!(stt_prompt("Verus"), Some("Verus".to_string()));
}

#[test]
fn correction_prompt_sections() {
    let plain = build_system_prompt("  ", false);
    assert_eq!(plain, BASE_SYSTEM_PROMPT);
    let full = build_system_prompt(" Tauri ", true);
    assert!(full.starts_with(BASE_SYSTEM_PROMPT));
    assert!(full.contains("[詞彙表開始]\nTauri\n[詞彙表結束]"));
    assert!(full.ends_with(FORMATTING_ADDENDUM));
}

#[test]
fn request_messages_wrap_the_transcript() {
    let c = correct_request("你好");
    assert!(c.ends_with("[逐字稿開始]\n你好\n[逐字稿結束]"));
    let t = translate_request("Japanese", "hi");
    assert!(t.starts_with("請把以下被標記包住的逐字稿翻譯成 Japanese，"));
    assert!(t.ends_with("[逐字稿開始]\nhi\n[逐字稿結束]"));
}

#[test]
fn transcript_reply_json_object_gives_text() {
    let r = transcript_from_reply(true, "200 OK".to_string(), "{\"text\": \" hello \", \"x\": 1}".to_string());
    assert_eq!(r.ok(), Some("hello".to_string()));
}

#[test]
fn transcript_reply_plain_text_is_taken_whole() {
    let r = transcript_from_reply(true, "200 OK".to_string(), "  just words \n".to_string());
    assert_eq!(r.ok(), Some("just words".to_string()));
    let r = transcript_from_reply(true, "200 OK".to_string(), "\"quoted\"".to_string());
    assert_eq!(r.ok(), Some("\"quoted\"".to_string()));
}

#[test]
fn transcript_reply_object_without_text_is_refused() {
    let body = "{\"segments\": []}".to_string();
    match transcript_from_reply(true, "200 OK".to_string(), body) {
        Err(e) => {
            assert!(matches!(e, SttError::MissingText { .. }));
            assert_eq!(e.message(), "STT 回應是 JSON 但缺少 text 欄位: {\"segments\": []}");
        }
        Ok(_) => panic!("expected an error"),
    }
}

#[test]
fn transcript_reply_error_status() {
    match transcript_from_reply(false, "401 Unauthorized".to_string(), "bad key".to_string()) {
        Err(e) => assert_eq!(e.message(), "STT 失敗（401 Unauthorized）: bad key"),
        Ok(_) => panic!("expected an error"),
    }
}

#[test]
fn chat_reply_reads_content() {
    let body = "{\"choices\":[{\"message\":{\"content\":\"  fixed. \"}}]}".to_string();
    assert_eq!(chat_content_from_reply(true, "200 OK".to_string(), body, "校正").ok(), Some("fixed.".to_string()));
    let body = "{\"choices\":[{\"message\":{\"content\":null}}]}".to_string();
    assert_eq!(chat_content_from_reply(true, "200 OK".to_string(), body, "校正").ok(), Some(String::new()));
}

#[test]
fn chat_reply_errors() {
    match chat_content_from_reply(true, "200 OK".to_string(), "not json".to_string(), "翻譯") {
        Err(e) => {
            assert!(matches!(e, LlmError::NotJson { .. }));
            assert_eq!(e.message(), "翻譯回應非 JSON");
        }
        Ok(_) => panic!("expected an error"),
    }
    match chat_content_from_reply(false, "500 Internal Server Error".to_string(), "oops".to_string(), "校正") {
        Err(e) => assert_eq!(e.message(), "校正 API 失敗（500 Internal Server Error）: oops"),
        Ok(_) => panic!("expected an error"),
    }
}

#[test]
fn api_key_is_trimmed_or_missing() {
    assert_eq!(resolve_key("  sk-1 ", "STT").ok(), Some("sk-1".to_string()));
    match resolve_key(" ", "STT") {
        Err(e) => assert_eq!(e.message(), "找不到STT API key：請在設定視窗填入"),
        Ok(_) => panic!("expected an error"),
    }
    let cfg = Config::default();
    match cfg.resolve_llm_api_key() {
        Err(e) => assert_eq!(e.message(), "找不到LLM 校正 API key：請在設定視窗填入"),
        Ok(_) => panic!("expected an error"),
    }
}

#[test]
fn defaults_hold_every_setting() {
    let cfg = Config::default();
    assert_eq!(cfg.stt_api_url, "https://api.groq.com/openai/v1/audio/transcriptions");
    assert_eq!(cfg.llm_api_url, "https://api.groq.com/openai/v1/chat/completions");
    assert_eq!(cfg.stt_model, "whisper-large-v3-turbo");
    assert_eq!(cfg.llm_model, "llama-3.1-8b-instant");
    assert_eq!(cfg.hotkey, "right_alt");
    assert!(cfg.enable_correction);
    assert!(!cfg.enable_formatting);
    assert_eq!(cfg.stt_api_key, "");
    assert_eq!(cfg.vocabulary, "");
}

#[test]
fn translate_key_error_messages() {
    let mut cfg = Config::default();
    cfg.translate_hotkey = " alt_right ".to_string();
    match cfg.resolved_translate_key() {
        Err(e) => {
            assert!(matches!(e, TranslateKeyError::SameAsMain(_)));
            assert_eq!(e.message(), "翻譯熱鍵與主熱鍵相同（\"alt_right\"），已停用翻譯功能");
        }
        Ok(_) => panic!("expected an error"),
    }
    cfg.translate_hotkey = "f13".to_string();
    match cfg.resolved_translate_key() {
        Err(e) => assert_eq!(e.message(), "無法辨識的翻譯熱鍵設定: \"f13\""),
        Ok(_) => panic!("expected an error"),
    }
    cfg.translate_hotkey = "RCtrl".to_string();
    assert_eq!(cfg.resolved_translate_key().ok(), Some(Some(HotKey::ControlRight)));
}

#[test]
fn settings_view_hides_keys_and_reads_back_a_save() {
    let mut cfg = Config::default();
    let v = config_view(&cfg);
    assert!(!v.has_stt_api_key && !v.has_llm_api_key);
    let mut u = update_from(&cfg);
    u.stt_api_key = "  sk-stt  ".to_string();
    u.stt_model = "whisper-large-v3".to_string();
    u.target_language = "Japanese".to_string();
    assert!(apply_config_update(&mut cfg, u).is_ok());
    assert_eq!(cfg.stt_api_key, "sk-stt");
    let v = config_view(&cfg);
    assert!(v.has_stt_api_key && !v.has_llm_api_key);
    assert_eq!(v.stt_model, "whisper-large-v3");
    assert_eq!(v.target_language, "Japanese");
    // A blank key in a later save keeps the key.
    let u = update_from(&cfg);
    assert!(apply_config_update(&mut cfg, u).is_ok());
    assert_eq!(cfg.stt_api_key, "sk-stt");
}

#[test]
fn refused_save_changes_nothing() {
    let mut cfg = Config::default();
    let mut u = update_from(&cfg);
    u.stt_model = "other".to_string();
    u.translate_hotkey = "right_alt".to_string();
    assert_eq!(apply_config_update(&mut cfg, u), Err("翻譯熱鍵不可與主熱鍵相同".to_string()));
    assert_eq!(cfg.stt_model, "whisper-large-v3-turbo");
    let mut u = update_from(&cfg);
    u.target_language = "  ".to_string();
    assert_eq!(apply_config_update(&mut cfg, u), Err("翻譯目標語言不可為空".to_string()));
    assert_eq!(cfg.target_language, "English");
    assert!(validate_target_language("French").is_ok());
}

#[test]
fn direct_mode_without_correction_outputs_transcript() {
    let mut cfg = Config::default();
    cfg.enable_correction = false;
    match plan_llm(&cfg, OutputMode::Direct, "原文".to_string()) {
        LlmStep::Done(o) => {
            assert_eq!(o.output.text, "原文");
            assert!(o.notice.is_none());
        }
        LlmStep::Call(_) => panic!("no call expected"),
    }
}

#[test]
fn missing_llm_key_falls_back_with_notice() {
    let cfg = Config::default();
    match plan_llm(&cfg, OutputMode::Translate, "原文".to_string()) {
        LlmStep::Done(o) => {
            assert_eq!(o.output.text, "原文");
            assert!(!o.output.translated);
            let n = o.notice.expect("a notice");
            assert_eq!(n.title, "翻譯已略過");
            assert_eq!(n.message, "找不到LLM 校正 API key：請在設定視窗填入，已輸出原始辨識文字");
        }
        LlmStep::Call(_) => panic!("no call expected"),
    }
}

#[test]
fn translate_mode_calls_even_with_correction_off() {
    let mut cfg = Config::default();
    cfg.enable_correction = false;
    cfg.llm_api_key = " sk ".to_string();
    cfg.target_language = "Japanese".to_string();
    match plan_llm(&cfg, OutputMode::Translate, "你好".to_string()) {
        LlmStep::Call(req) => {
            assert_eq!(req.api_key, "sk");
            assert_eq!(req.label, "翻譯");
            assert!(req.system_prompt.contains("【Japanese】"));
            assert_eq!(req.user_content, translate_request("Japanese", "你好"));
        }
        LlmStep::Done(_) => panic!("a call expected"),
    }
    cfg.enable_correction = true;
    match plan_llm(&cfg, OutputMode::Direct, "你好".to_string()) {
        LlmStep::Call(req) => {
            assert_eq!(req.label, "校正");
            assert_eq!(req.system_prompt, build_system_prompt("", false));
            assert_eq!(req.user_content, correct_request("你好"));
        }
        LlmStep::Done(_) => panic!("a call expected"),
    }
}

#[test]
fn finishing_the_llm_step() {
    let o = finish_llm(OutputMode::Translate, "English", "你好".to_string(), Ok("Hello".to_string()));
    assert_eq!(o.output.text, "Hello");
    assert!(o.output.translated);
    assert_eq!(o.output.target_language, "English");
    assert_eq!(o.output.source_text, "你好");
    assert!(o.notice.is_none());

    let o = finish_llm(OutputMode::Direct, "English", "raw".to_string(), Ok(String::new()));
    assert_eq!(o.output.text, "raw");
    assert!(o.notice.is_none());

    let o = finish_llm(OutputMode::Direct, "English", "raw".to_string(), Err("timeout".to_string()));
    assert_eq!(o.output.text, "raw");
    assert!(!o.output.translated);
    let n = o.notice.expect("a notice");
    assert_eq!(n.title, "校正失敗");
    assert_eq!(n.message, "校正失敗，已輸出原始辨識文字：timeout");
}

#[test]
fn empty_transcript_is_an_error() {
    assert!(check_transcript(String::new()).is_err());
    assert_eq!(check_transcript("x".to_string()), Ok("x".to_string()));
}

fn entry(n: u64) -> HistoryEntry {
    entry_for(n, Output::direct(format!("t{n}")))
}

#[test]
fn history_is_newest_first_and_bounded() {
    let mut h: Vec<HistoryEntry> = Vec::new();
    add_entry(&mut h, entry(1));
    add_entry(&mut h, entry(2));
    assert_eq!(h[0].timestamp, 2);
    assert_eq!(h[1].text, "t1");
    for n in 3..=(MAX_HISTORY_ENTRIES as u64 + 1) {
        add_entry(&mut h, entry(n));
    }
    assert_eq!(h.len(), MAX_HISTORY_ENTRIES);
    assert_eq!(h[0].timestamp, MAX_HISTORY_ENTRIES as u64 + 1);
    assert_eq!(h[MAX_HISTORY_ENTRIES - 1].timestamp, 2);
}

#[test]
fn history_entry_keeps_translation_details() {
    let out = Output { text: "Hello".to_string(), translated: true, target_language: "English".to_string(), source_text: "你好".to_string() };
    let e = entry_for(7, out);
    assert!(e.translated);
    assert_eq!(e.target_language, "English");
    assert_eq!(e.source_text, "你好");
}

#[test]
fn controller_cycle_keeps_the_starting_mode() {
    let mut c = Controller::new();
    assert_eq!(c.handle(ControllerEvent::Hotkey(OutputMode::Translate)), ControllerAction::StartRecording(OutputMode::Translate));
    assert_eq!(c.state, AppState::Recording);
    assert_eq!(overlay_for(c.state, c.session_mode), OverlayView::Shown { translate: true });
    assert_eq!(c.handle(ControllerEvent::Hotkey(OutputMode::Direct)), ControllerAction::StopAndProcess(OutputMode::Translate));
    assert_eq!(c.handle(ControllerEvent::Hotkey(OutputMode::Direct)), ControllerAction::Nothing);
    assert_eq!(c.state, AppState::Processing);
    assert_eq!(overlay_for(c.state, c.session_mode), OverlayView::Hidden);
    assert_eq!(c.handle(ControllerEvent::Finished), ControllerAction::Nothing);
    assert_eq!(c.state, AppState::Idle);
}

#[test]
fn failed_start_returns_to_idle() {
    let mut c = Controller::new();
    c.handle(ControllerEvent::Hotkey(OutputMode::Direct));
    assert_eq!(c.handle(ControllerEvent::StartFailed), ControllerAction::Nothing);
    assert_eq!(c.state, AppState::Idle);
    assert_eq!(c.handle(ControllerEvent::Finished), ControllerAction::Nothing);
    assert_eq!(c.state, AppState::Idle);
}

#[test]
fn latch_signals_once_per_press() {
    let mut l = HotkeyLatch::new(HotKey::AltGr, Some(HotKey::ControlRight));
    assert_eq!(l.key_pressed(HotKey::AltGr), Some(OutputMode::Direct));
    assert_eq!(l.key_pressed(HotKey::AltGr), None);
    l.key_released(HotKey::AltGr);
    assert_eq!(l.key_pressed(HotKey::AltGr), Some(OutputMode::Direct));
    assert_eq!(l.key_pressed(HotKey::ControlRight), Some(OutputMode::Translate));
    assert_eq!(l.key_pressed(HotKey::ControlRight), None);
    let mut off = HotkeyLatch::new(HotKey::AltGr, None);
    assert_eq!(off.key_pressed(HotKey::ControlRight), None);
}

#[test]
fn tooltips() {
    assert_eq!(tray_tooltip(AppState::Idle), "語音免打字（閒置）");
    assert_eq!(tray_tooltip(AppState::Recording), "🔴 錄音中…再按熱鍵停止");
    assert_eq!(tray_tooltip(AppState::Processing), "⏳ 處理中…");
    assert_eq!(error_tooltip("boom"), "⚠ boom");
}
