use voicetyping::config::{effective_main_key, Config, TranslateKeyError};
use voicetyping::hotkey::{HotKey, HotkeyLatch, KeyEvent};
use voicetyping::pipeline::{PipelineAction, PipelineEvent, PipelineRun};
use voicetyping::prompt::normalize_vocabulary_for_prompt;
use voicetyping::recording::{check_wav_size, decimal_string, MAX_WAV_BYTES};
use voicetyping::reply::{chat_content_from_parsed, transcript_from_parsed, LlmError, SttError};
use voicetyping::state::OutputMode;

#[test]
fn startup_refuses_translation_key_on_padded_main_key() {
    let mut cfg = Config::default();
    cfg.hotkey = " right_alt ".to_string();
    cfg.translate_hotkey = "right_alt".to_string();
    assert!(matches!(cfg.resolved_translate_key(), Err(TranslateKeyError::SameAsMain(_))));
}

#[test]
fn startup_refuses_translation_key_on_fallback_main_key() {
    let mut cfg = Config::default();
    cfg.hotkey = "f13".to_string();
    cfg.translate_hotkey = "altgr".to_string();
    assert!(cfg.resolved_translate_key().is_err());
    cfg.translate_hotkey = "right_ctrl".to_string();
    assert_eq!(cfg.resolved_translate_key().ok(), Some(Some(HotKey::ControlRight)));
}

#[test]
fn main_key_in_use() {
    assert_eq!(effective_main_key(" right_ctrl "), HotKey::ControlRight);
    assert_eq!(effective_main_key("caps_lock"), HotKey::AltGr);
    assert_eq!(effective_main_key("Right Alt"), HotKey::AltGr);
}

#[test]
fn parsed_replies() {
    let r = transcript_from_parsed(true, "200 OK".to_string(), "{}".to_string(), Some(Some(" hi ".to_string())));
    assert_eq!(r.ok(), Some("hi".to_string()));
    let r = transcript_from_parsed(true, "200 OK".to_string(), " raw ".to_string(), None);
    assert_eq!(r.ok(), Some("raw".to_string()));
    let r = transcript_from_parsed(true, "200 OK".to_string(), "{}".to_string(), Some(None));
    assert!(matches!(r, Err(SttError::MissingText { .. })));
    let r = chat_content_from_parsed(true, "200 OK".to_string(), "x".to_string(), None, "校正");
    assert!(matches!(r, Err(LlmError::NotJson { .. })));
    let r = chat_content_from_parsed(true, "200 OK".to_string(), "x".to_string(), Some(Some(" ok ".to_string())), "校正");
    assert_eq!(r.ok(), Some("ok".to_string()));
}

#[test]
fn wav_size_limit() {
    assert_eq!(decimal_string(0), "0");
    assert_eq!(decimal_string(1234509), "1234509");
    assert!(check_wav_size(MAX_WAV_BYTES).is_ok());
    assert_eq!(
        check_wav_size(MAX_WAV_BYTES + 1),
        Err("錄音超過 25MB 上限（26214401 bytes），請縮短單次錄音時間".to_string())
    );
}

#[test]
fn vocabulary_hint_is_stable() {
    let once = normalize_vocabulary_for_prompt("a\n b ，c,\n");
    assert_eq!(once, "a, b, c");
    assert!(!once.contains('\n'));
    assert_eq!(normalize_vocabulary_for_prompt(&once), once);
}

#[test]
fn one_signal_per_round() {
    let mut l = HotkeyLatch::new(HotKey::AltGr, Some(HotKey::ControlRight));
    let events = [
        KeyEvent::Press(HotKey::AltGr),
        KeyEvent::Press(HotKey::AltGr),
        KeyEvent::Press(HotKey::ControlRight),
        KeyEvent::Press(HotKey::AltGr),
        KeyEvent::Release(HotKey::AltGr),
        KeyEvent::Release(HotKey::ControlRight),
        KeyEvent::Press(HotKey::AltGr),
        KeyEvent::Release(HotKey::AltGr),
    ];
    let signals: Vec<OutputMode> = events.iter().filter_map(|e| l.handle_event(*e)).collect();
    assert_eq!(signals, vec![OutputMode::Direct, OutputMode::Translate, OutputMode::Direct]);
}

fn keyed() -> Config {
    let mut cfg = Config::default();
    cfg.stt_api_key = " sk-stt ".to_string();
    cfg
}

#[test]
fn pipeline_without_stt_key_fails_first() {
    let cfg = Config::default();
    let mut run = PipelineRun::new(OutputMode::Direct);
    match run.step(&cfg, PipelineEvent::Start) {
        PipelineAction::Fail(m) => assert_eq!(m, "找不到STT API key：請在設定視窗填入"),
        _ => panic!("expected a failure"),
    }
}

#[test]
fn pipeline_silence_skips() {
    let cfg = keyed();
    let mut run = PipelineRun::new(OutputMode::Direct);
    assert!(matches!(run.step(&cfg, PipelineEvent::Start), PipelineAction::StopRecording));
    assert!(matches!(run.step(&cfg, PipelineEvent::Stopped { speech: false }), PipelineAction::Skip));
    assert!(matches!(run.step(&cfg, PipelineEvent::Typed(Ok(()))), PipelineAction::Nothing));
}

#[test]
fn pipeline_empty_transcript_fails() {
    let cfg = keyed();
    let mut run = PipelineRun::new(OutputMode::Direct);
    run.step(&cfg, PipelineEvent::Start);
    match run.step(&cfg, PipelineEvent::Stopped { speech: true }) {
        PipelineAction::Transcribe { api_key } => assert_eq!(api_key, "sk-stt"),
        _ => panic!("expected recognition"),
    }
    assert!(matches!(run.step(&cfg, PipelineEvent::Transcribed(Ok(String::new()))), PipelineAction::Fail(_)));
}

#[test]
fn pipeline_types_then_records() {
    let mut cfg = keyed();
    cfg.enable_correction = false;
    let mut run = PipelineRun::new(OutputMode::Direct);
    run.step(&cfg, PipelineEvent::Start);
    run.step(&cfg, PipelineEvent::Stopped { speech: true });
    match run.step(&cfg, PipelineEvent::Transcribed(Ok("原文".to_string()))) {
        PipelineAction::Type { output, notice } => {
            assert_eq!(output.text, "原文");
            assert!(notice.is_none());
        }
        _ => panic!("expected typing"),
    }
    match run.step(&cfg, PipelineEvent::Typed(Ok(()))) {
        PipelineAction::RecordHistory(o) => assert_eq!(o.text, "原文"),
        _ => panic!("expected the history"),
    }
}

#[test]
fn pipeline_failed_typing_records_nothing() {
    let mut cfg = keyed();
    cfg.llm_api_key = "sk-llm".to_string();
    let mut run = PipelineRun::new(OutputMode::Translate);
    run.step(&cfg, PipelineEvent::Start);
    run.step(&cfg, PipelineEvent::Stopped { speech: true });
    assert!(matches!(run.step(&cfg, PipelineEvent::Transcribed(Ok("你好".to_string()))), PipelineAction::Refine(_)));
    match run.step(&cfg, PipelineEvent::Refined(Ok("Hello".to_string()))) {
        PipelineAction::Type { output, .. } => {
            assert_eq!(output.text, "Hello");
            assert!(output.translated);
            assert_eq!(output.source_text, "你好");
        }
        _ => panic!("expected typing"),
    }
    match run.step(&cfg, PipelineEvent::Typed(Err("no focus".to_string()))) {
        PipelineAction::Fail(m) => assert_eq!(m, "輸入失敗: no focus"),
        _ => panic!("expected a failure"),
    }
}
