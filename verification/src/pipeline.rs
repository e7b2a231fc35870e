//! The decisions of the processing pipeline: after speech recognition, the
//! transcript is corrected or translated by a language model, and any
//! failure there falls back to the transcript itself.
use vstd::prelude::*;
use crate::config::{Config, MissingApiKey};
use crate::prompt::{
    build_system_prompt, build_translate_system_prompt, correct_request, spec_correct_request,
    spec_system_prompt, spec_translate_request, spec_translate_system_prompt, translate_request,
};
use crate::state::OutputMode;
use crate::text::{is_blank, owned, trim};

verus! {

/// The text to type, and what the history records about it.
#[derive(Clone, Debug)]
pub struct Output {
    pub text: String,
    pub translated: bool,
    /// The translation's target language; empty when not translated.
    pub target_language: String,
    /// The transcript that was translated; empty when not translated.
    pub source_text: String,
}

/// Whether `o` is the untranslated output of `text`.
pub open spec fn is_direct(o: Output, text: Seq<char>) -> bool {
    &&& o.text@ == text
    &&& !o.translated
    &&& o.target_language@ == Seq::<char>::empty()
    &&& o.source_text@ == Seq::<char>::empty()
}

impl Output {
    /// A copy of this output.
    pub fn duplicate(&self) -> (o: Output)
        ensures
            o == *self,
    {
        Output {
            text: self.text.clone(),
            translated: self.translated,
            target_language: self.target_language.clone(),
            source_text: self.source_text.clone(),
        }
    }

    /// Output that is not a translation.
    pub fn direct(text: String) -> (o: Output)
        ensures
            is_direct(o, text@),
    {
        Output { text, translated: false, target_language: String::new(), source_text: String::new() }
    }
}

/// A desktop notification to show.
pub struct Notice {
    pub title: String,
    pub message: String,
}

/// What a pipeline step ends with: the output, and a notice when the user
/// should hear of a fallback.
pub struct Outcome {
    pub output: Output,
    pub notice: Option<Notice>,
}

/// Whether `n` is the notice with this title and message.
pub open spec fn notice_is(n: Option<Notice>, title: Seq<char>, message: Seq<char>) -> bool {
    n matches Some(x) && x.title@ == title && x.message@ == message
}

/// A call for the language model to make.
pub struct LlmRequest {
    pub api_key: String,
    pub api_url: String,
    pub model: String,
    pub system_prompt: String,
    pub user_content: String,
    /// "校正" or "翻譯", for error messages.
    pub label: String,
}

/// The next step once the transcript is known.
pub enum LlmStep {
    /// No call is made; this is the outcome.
    Done(Outcome),
    /// Make this call, then hand its reply to `finish_llm`.
    Call(LlmRequest),
}

/// The request's label for `mode`.
pub open spec fn mode_label(mode: OutputMode) -> Seq<char> {
    match mode {
        OutputMode::Direct => "校正"@,
        OutputMode::Translate => "翻譯"@,
    }
}

/// The notice title when the language model is skipped for want of a key.
pub open spec fn skipped_title(mode: OutputMode) -> Seq<char> {
    match mode {
        OutputMode::Direct => "校正已略過"@,
        OutputMode::Translate => "翻譯已略過"@,
    }
}

/// The notice title when the language model call fails.
pub open spec fn failed_title(mode: OutputMode) -> Seq<char> {
    match mode {
        OutputMode::Direct => "校正失敗"@,
        OutputMode::Translate => "翻譯失敗"@,
    }
}

/// Said after a fallback to the transcript.
pub open spec fn fallback_note() -> Seq<char> {
    "，已輸出原始辨識文字"@
}

/// Whether `step` is what `plan_llm` decides: in the direct mode with
/// correction off, the transcript as it is; without an LLM key, the
/// transcript and a notice; otherwise a correction request (direct mode) or a
/// translation request (translate mode, whatever the correction setting).
pub open spec fn planned(cfg: Config, mode: OutputMode, raw: Seq<char>, step: LlmStep) -> bool {
    if mode == OutputMode::Direct && !cfg.enable_correction {
        step matches LlmStep::Done(o) && is_direct(o.output, raw) && o.notice is None
    } else if is_blank(cfg.llm_api_key@) {
        step matches LlmStep::Done(o) && is_direct(o.output, raw) && notice_is(
            o.notice,
            skipped_title(mode),
            "找不到"@ + "LLM 校正"@ + " API key：請在設定視窗填入"@ + fallback_note(),
        )
    } else {
        step matches LlmStep::Call(req) && {
            &&& req.api_key@ == trim(cfg.llm_api_key@)
            &&& req.api_url@ == cfg.llm_api_url@
            &&& req.model@ == cfg.llm_model@
            &&& req.label@ == mode_label(mode)
            &&& match mode {
                OutputMode::Direct => {
                    &&& req.system_prompt@ == spec_system_prompt(cfg.vocabulary@, cfg.enable_formatting)
                    &&& req.user_content@ == spec_correct_request(raw)
                },
                OutputMode::Translate => {
                    &&& req.system_prompt@ == spec_translate_system_prompt(
                        cfg.target_language@,
                        cfg.vocabulary@,
                        cfg.enable_formatting,
                    )
                    &&& req.user_content@ == spec_translate_request(cfg.target_language@, raw)
                },
            }
        }
    }
}

fn skipped_notice(mode: OutputMode, e: MissingApiKey) -> (n: Notice)
    ensures
        n.title@ == skipped_title(mode),
        n.message@ == e.spec_message() + fallback_note(),
{
    let mut message = e.message();
    message.append("，已輸出原始辨識文字");
    let title = match mode {
        OutputMode::Direct => owned("校正已略過"),
        OutputMode::Translate => owned("翻譯已略過"),
    };
    Notice { title, message }
}

/// Decides what follows a transcript `raw` in `mode`.
pub fn plan_llm(cfg: &Config, mode: OutputMode, raw: String) -> (step: LlmStep)
    ensures
        planned(*cfg, mode, raw@, step),
        step matches LlmStep::Call(req) ==> req.model@ == cfg.llm_model@ && req.api_url@
            == cfg.llm_api_url@ && req.api_key@ == trim(cfg.llm_api_key@),
        step matches LlmStep::Call(req) ==> (req.label@ == "翻譯"@ <==> mode == OutputMode::Translate),
        step matches LlmStep::Done(o) ==> o.output.text@ == raw@ && !o.output.translated,
        match step {
            LlmStep::Call(req) => match mode {
                OutputMode::Direct => req.system_prompt@ == spec_system_prompt(
                    cfg.vocabulary@,
                    cfg.enable_formatting,
                ) && req.user_content@ == spec_correct_request(raw@),
                OutputMode::Translate => req.system_prompt@ == spec_translate_system_prompt(
                    cfg.target_language@,
                    cfg.vocabulary@,
                    cfg.enable_formatting,
                ) && req.user_content@ == spec_translate_request(cfg.target_language@, raw@),
            },
            LlmStep::Done(_) => is_blank(cfg.llm_api_key@) || (mode == OutputMode::Direct
                && !cfg.enable_correction),
        },
{
    proof {
        reveal_strlit("翻譯");
        reveal_strlit("校正");
        assert("校正"@[0] != "翻譯"@[0]);
        assert("校正"@ != "翻譯"@);
    }
    if mode == OutputMode::Direct && !cfg.enable_correction {
        return LlmStep::Done(Outcome { output: Output::direct(raw), notice: None });
    }
    let api_key = match cfg.resolve_llm_api_key() {
        Ok(k) => k,
        Err(e) => {
            let notice = skipped_notice(mode, e);
            return LlmStep::Done(Outcome { output: Output::direct(raw), notice: Some(notice) });
        },
    };
    match mode {
        OutputMode::Direct => LlmStep::Call(
            LlmRequest {
                api_key,
                api_url: cfg.llm_api_url.clone(),
                model: cfg.llm_model.clone(),
                system_prompt: build_system_prompt(cfg.vocabulary.as_str(), cfg.enable_formatting),
                user_content: correct_request(raw.as_str()),
                label: owned("校正"),
            },
        ),
        OutputMode::Translate => LlmStep::Call(
            LlmRequest {
                api_key,
                api_url: cfg.llm_api_url.clone(),
                model: cfg.llm_model.clone(),
                system_prompt: build_translate_system_prompt(
                    cfg.target_language.as_str(),
                    cfg.vocabulary.as_str(),
                    cfg.enable_formatting,
                ),
                user_content: translate_request(cfg.target_language.as_str(), raw.as_str()),
                label: owned("翻譯"),
            },
        ),
    }
}

/// Whether `o` is what `finish_llm` gives: the model's text when it is not
/// empty (marked as a translation of `raw` in translate mode); otherwise the
/// transcript, with a notice when the call failed, and silently when the
/// model returned nothing.
pub open spec fn finished(
    mode: OutputMode,
    target_language: Seq<char>,
    raw: Seq<char>,
    reply: Result<Seq<char>, Seq<char>>,
    o: Outcome,
) -> bool {
    match reply {
        Ok(t) => if t.len() > 0 {
            o.notice is None && match mode {
                OutputMode::Direct => is_direct(o.output, t),
                OutputMode::Translate => {
                    &&& o.output.text@ == t
                    &&& o.output.translated
                    &&& o.output.target_language@ == target_language
                    &&& o.output.source_text@ == raw
                },
            }
        } else {
            is_direct(o.output, raw) && o.notice is None
        },
        Err(e) => is_direct(o.output, raw) && notice_is(
            o.notice,
            failed_title(mode),
            failed_title(mode) + "，已輸出原始辨識文字："@ + e,
        ),
    }
}

/// A `Result<String, String>` by view.
pub open spec fn reply_view(r: Result<String, String>) -> Result<Seq<char>, Seq<char>> {
    match r {
        Ok(t) => Ok(t@),
        Err(e) => Err(e@),
    }
}

/// Turns the language model's reply (its content, or the failure's message)
/// into the outcome; `target_language` is the setting the request used.
pub fn finish_llm(mode: OutputMode, target_language: &str, raw: String, reply: Result<String, String>) -> (o: Outcome)
    ensures
        finished(mode, target_language@, raw@, reply_view(reply), o),
        match reply {
            Ok(t) => if t@.len() > 0 {
                &&& o.output.text@ == t@
                &&& o.notice is None
                &&& o.output.translated == (mode == OutputMode::Translate)
                &&& mode == OutputMode::Translate ==> o.output.source_text@ == raw@
                    && o.output.target_language@ == target_language@
            } else {
                o.output.text@ == raw@ && !o.output.translated
            },
            Err(_) => o.output.text@ == raw@ && !o.output.translated && o.notice is Some,
        },
{
    match reply {
        Ok(t) => {
            if t.as_str().is_empty() {
                Outcome { output: Output::direct(raw), notice: None }
            } else {
                match mode {
                    OutputMode::Direct => Outcome { output: Output::direct(t), notice: None },
                    OutputMode::Translate => Outcome {
                        output: Output {
                            text: t,
                            translated: true,
                            target_language: owned(target_language),
                            source_text: raw,
                        },
                        notice: None,
                    },
                }
            }
        },
        Err(e) => {
            let title = match mode {
                OutputMode::Direct => owned("校正失敗"),
                OutputMode::Translate => owned("翻譯失敗"),
            };
            let mut message = title.clone();
            message.append("，已輸出原始辨識文字：");
            message.append(e.as_str());
            Outcome { output: Output::direct(raw), notice: Some(Notice { title, message }) }
        },
    }
}

/// The error when recognition returns no text.
pub open spec fn empty_transcript_message() -> Seq<char> {
    "STT（Whisper）辨識結果為空：本次錄音可能沒有收到聲音、時間太短，或內容無法辨識，請確認麥克風音量後再試一次"@
}

/// A transcript goes on only when it is not empty.
pub fn check_transcript(raw: String) -> (r: Result<String, String>)
    ensures
        raw@.len() > 0 ==> (r matches Ok(t) && t@ == raw@),
        raw@.len() == 0 ==> (r matches Err(e) && e@ == empty_transcript_message()),
{
    if raw.as_str().is_empty() {
        Err(owned("STT（Whisper）辨識結果為空：本次錄音可能沒有收到聲音、時間太短，或內容無法辨識，請確認麥克風音量後再試一次"))
    } else {
        Ok(raw)
    }
}

/// Where one run of the pipeline stands.
pub enum Stage {
    /// Not started.
    Begin,
    /// The recording is being stopped; the speech-recognition key is known.
    Stopping { api_key: String },
    /// Speech recognition is under way.
    Transcribing,
    /// The language model is working on the transcript `raw`.
    Refining { raw: String },
    /// `output` is being typed.
    Typing { output: Output },
    /// The run is over.
    Done,
}

/// One run of the pipeline, from the end of a recording to the history.
pub struct PipelineRun {
    /// The recording's mode.
    pub mode: OutputMode,
    pub stage: Stage,
}

/// What the application reports to a run.
pub enum PipelineEvent {
    /// Begin the run.
    Start,
    /// The recording was stopped and encoded; `speech` tells whether anybody
    /// spoke in it.
    Stopped { speech: bool },
    /// Stopping or encoding the recording failed, with this message.
    StopFailed(String),
    /// Speech recognition gave a transcript, or failed with a message.
    Transcribed(Result<String, String>),
    /// The language model replied with content, or failed with a message.
    Refined(Result<String, String>),
    /// Typing the output succeeded, or failed with a message.
    Typed(Result<(), String>),
}

/// What a run asks the application to do next.
pub enum PipelineAction {
    /// Stop the recording, check it for speech, encode it.
    StopRecording,
    /// Send the recording to speech recognition with this key.
    Transcribe { api_key: String },
    /// Make this language-model call.
    Refine(LlmRequest),
    /// Show `notice`, if any, then type `output`.
    Type { output: Output, notice: Option<Notice> },
    /// Record `output` in the history; the run is over.
    RecordHistory(Output),
    /// Report this error; the run is over.
    Fail(String),
    /// Nobody spoke: nothing is typed or recorded; the run is over.
    Skip,
    /// Nothing (the event does not fit the stage).
    Nothing,
}

/// The language-model step that a `Type` or `Refine` action carries out.
pub open spec fn step_of(a: PipelineAction) -> LlmStep {
    match a {
        PipelineAction::Type { output, notice } => LlmStep::Done(Outcome { output, notice }),
        PipelineAction::Refine(req) => LlmStep::Call(req),
        _ => LlmStep::Done(Outcome { output: arbitrary(), notice: None }),
    }
}

/// The message when typing fails.
pub open spec fn typing_failed_message(e: Seq<char>) -> Seq<char> {
    "輸入失敗: "@ + e
}

/// Whether `new` and `a` are what `old` goes to on `e`, under settings `cfg`.
pub open spec fn run_step(old: PipelineRun, cfg: Config, e: PipelineEvent, new: PipelineRun, a: PipelineAction) -> bool {
    &&& new.mode == old.mode
    &&& match (old.stage, e) {
        (Stage::Begin, PipelineEvent::Start) => if is_blank(cfg.stt_api_key@) {
            new.stage is Done && (a matches PipelineAction::Fail(m) && m@ == "找不到"@ + "STT"@
                + " API key：請在設定視窗填入"@)
        } else {
            a is StopRecording && (new.stage matches Stage::Stopping { api_key } && api_key@ == trim(
                cfg.stt_api_key@,
            ))
        },
        (Stage::Stopping { api_key }, PipelineEvent::Stopped { speech }) => if speech {
            new.stage is Transcribing && (a matches PipelineAction::Transcribe { api_key: k } && k
                == api_key)
        } else {
            new.stage is Done && a is Skip
        },
        (Stage::Stopping { .. }, PipelineEvent::StopFailed(m)) => new.stage is Done && a
            == PipelineAction::Fail(m),
        (Stage::Transcribing, PipelineEvent::Transcribed(Err(m))) => new.stage is Done && a
            == PipelineAction::Fail(m),
        (Stage::Transcribing, PipelineEvent::Transcribed(Ok(raw))) => if raw@.len() == 0 {
            new.stage is Done && (a matches PipelineAction::Fail(m) && m@ == empty_transcript_message())
        } else {
            &&& planned(cfg, old.mode, raw@, step_of(a))
            &&& match a {
                PipelineAction::Type { output, notice } => new.stage == Stage::Typing { output },
                PipelineAction::Refine(_) => new.stage matches Stage::Refining { raw: r } && r@
                    == raw@,
                _ => false,
            }
        },
        (Stage::Refining { raw }, PipelineEvent::Refined(reply)) => match a {
            PipelineAction::Type { output, notice } => {
                &&& finished(
                    old.mode,
                    cfg.target_language@,
                    raw@,
                    reply_view(reply),
                    Outcome { output, notice },
                )
                &&& new.stage == Stage::Typing { output }
            },
            _ => false,
        },
        (Stage::Typing { output }, PipelineEvent::Typed(Ok(()))) => new.stage is Done && a
            == PipelineAction::RecordHistory(output),
        (Stage::Typing { .. }, PipelineEvent::Typed(Err(m))) => new.stage is Done && (a matches PipelineAction::Fail(f)
            && f@ == typing_failed_message(m@)),
        _ => new == old && a is Nothing,
    }
}

impl PipelineRun {
    /// A run for a recording in `mode`, not started.
    pub fn new(mode: OutputMode) -> (r: PipelineRun)
        ensures
            r.mode == mode,
            r.stage is Begin,
    {
        PipelineRun { mode, stage: Stage::Begin }
    }

    /// Advances the run by `e`: the speech-recognition key is checked before
    /// the recording is stopped, a recording without speech skips
    /// recognition, an empty transcript is an error, the language model is
    /// planned and its reply finished as `plan_llm` and `finish_llm` say, and
    /// the history is written only after the output was typed.
    pub fn step(&mut self, cfg: &Config, e: PipelineEvent) -> (a: PipelineAction)
        ensures
            run_step(*old(self), *cfg, e, *final(self), a),
            final(self).mode == old(self).mode,
            old(self).stage is Transcribing && (e matches PipelineEvent::Transcribed(Ok(raw))
                && raw@.len() > 0) ==> planned(*cfg, old(self).mode, e->Transcribed_0->Ok_0@, step_of(a)),
    {
        let mut stage = Stage::Done;
        std::mem::swap(&mut stage, &mut self.stage);
        match (stage, e) {
            (Stage::Begin, PipelineEvent::Start) => match cfg.resolve_stt_api_key() {
                Ok(api_key) => {
                    self.stage = Stage::Stopping { api_key };
                    PipelineAction::StopRecording
                },
                Err(err) => PipelineAction::Fail(err.message()),
            },
            (Stage::Stopping { api_key }, PipelineEvent::Stopped { speech }) => {
                if speech {
                    self.stage = Stage::Transcribing;
                    PipelineAction::Transcribe { api_key }
                } else {
                    PipelineAction::Skip
                }
            },
            (Stage::Stopping { .. }, PipelineEvent::StopFailed(m)) => PipelineAction::Fail(m),
            (Stage::Transcribing, PipelineEvent::Transcribed(Err(m))) => PipelineAction::Fail(m),
            (Stage::Transcribing, PipelineEvent::Transcribed(Ok(raw))) => {
                let ghost raw_view = raw@;
                if raw.as_str().is_empty() {
                    match check_transcript(raw) {
                        Err(m) => PipelineAction::Fail(m),
                        Ok(_) => PipelineAction::Nothing,
                    }
                } else {
                    let keep = raw.clone();
                    match plan_llm(cfg, self.mode, raw) {
                        LlmStep::Done(o) => {
                            let Outcome { output, notice } = o;
                            self.stage = Stage::Typing { output: output.duplicate() };
                            PipelineAction::Type { output, notice }
                        },
                        LlmStep::Call(req) => {
                            self.stage = Stage::Refining { raw: keep };
                            PipelineAction::Refine(req)
                        },
                    }
                }
            },
            (Stage::Refining { raw }, PipelineEvent::Refined(reply)) => {
                let o = finish_llm(self.mode, cfg.target_language.as_str(), raw, reply);
                let Outcome { output, notice } = o;
                self.stage = Stage::Typing { output: output.duplicate() };
                PipelineAction::Type { output, notice }
            },
            (Stage::Typing { output }, PipelineEvent::Typed(Ok(()))) => PipelineAction::RecordHistory(
                output,
            ),
            (Stage::Typing { .. }, PipelineEvent::Typed(Err(m))) => {
                let mut f = owned("輸入失敗: ");
                f.append(m.as_str());
                PipelineAction::Fail(f)
            },
            (stage, _) => {
                self.stage = stage;
                PipelineAction::Nothing
            },
        }
    }
}

/// The history is written only for output that was typed successfully: a
/// `RecordHistory` action comes only from the typing stage, for the output
/// being typed, on a report that typing succeeded.
pub proof fn law_history_only_after_typing(
    old: PipelineRun,
    cfg: Config,
    e: PipelineEvent,
    new: PipelineRun,
    o: Output,
)
    requires
        run_step(old, cfg, e, new, PipelineAction::RecordHistory(o)),
    ensures
        old.stage == (Stage::Typing { output: o }),
        e matches PipelineEvent::Typed(Ok(_)),
{
}

/// The speech-recognition key is checked first: without it the run fails at
/// once and the recording is never sent anywhere.
pub proof fn law_stt_key_checked_first(old: PipelineRun, cfg: Config, new: PipelineRun, a: PipelineAction)
    requires
        old.stage is Begin,
        run_step(old, cfg, PipelineEvent::Start, new, a),
    ensures
        a is StopRecording <==> !is_blank(cfg.stt_api_key@),
        !(a is StopRecording) ==> a is Fail && new.stage is Done,
{
}

/// A recording without speech skips recognition and ends the run quietly.
pub proof fn law_silence_skips_recognition(old: PipelineRun, cfg: Config, new: PipelineRun, a: PipelineAction)
    requires
        old.stage is Stopping,
        run_step(old, cfg, PipelineEvent::Stopped { speech: false }, new, a),
    ensures
        a is Skip,
        new.stage is Done,
{
}

/// An empty transcript is an error: nothing is typed or recorded.
pub proof fn law_empty_transcript_fails(old: PipelineRun, cfg: Config, raw: String, new: PipelineRun, a: PipelineAction)
    requires
        old.stage is Transcribing,
        raw@.len() == 0,
        run_step(old, cfg, PipelineEvent::Transcribed(Ok(raw)), new, a),
    ensures
        a matches PipelineAction::Fail(m) && m@ == empty_transcript_message(),
        new.stage is Done,
{
}

/// A correction that the model returns is what gets typed: in direct mode a
/// non-empty reply becomes the output text, unmarked as a translation and
/// without a notice; in translate mode a non-empty reply becomes the output
/// text, marked as a translation of the transcript into the target language.
pub proof fn law_nonempty_reply_is_typed(
    mode: OutputMode,
    target_language: Seq<char>,
    raw: Seq<char>,
    t: Seq<char>,
    o: Outcome,
)
    requires
        t.len() > 0,
        finished(mode, target_language, raw, Ok(t), o),
    ensures
        o.output.text@ == t,
        o.notice is None,
        mode == OutputMode::Direct ==> !o.output.translated,
        mode == OutputMode::Translate ==> o.output.translated && o.output.source_text@ == raw
            && o.output.target_language@ == target_language,
{
}

/// Every language-model call goes to the configured chat endpoint with the
/// configured chat model and the trimmed chat key, in either mode.
pub proof fn law_call_uses_llm_settings(cfg: Config, mode: OutputMode, raw: Seq<char>, req: LlmRequest)
    requires
        planned(cfg, mode, raw, LlmStep::Call(req)),
    ensures
        req.model@ == cfg.llm_model@,
        req.api_url@ == cfg.llm_api_url@,
        req.api_key@ == trim(cfg.llm_api_key@),
{
}

/// A call is made exactly when the model is to be used and a key is set:
/// always in translate mode, and in direct mode only with correction on.
pub proof fn law_call_when_key_set(cfg: Config, mode: OutputMode, raw: Seq<char>, step: LlmStep)
    requires
        planned(cfg, mode, raw, step),
    ensures
        step is Call <==> (!is_blank(cfg.llm_api_key@) && (mode == OutputMode::Translate
            || cfg.enable_correction)),
{
}

/// A non-empty transcript of a translate-hotkey recording is sent for
/// translation (label, instructions and message of a translation into the
/// configured target language) whenever a chat key is set, whatever the
/// correction switch; one of a main-hotkey recording with correction on is
/// sent for correction.
pub proof fn law_run_refines_in_its_mode(
    old: PipelineRun,
    cfg: Config,
    raw: String,
    new: PipelineRun,
    a: PipelineAction,
)
    requires
        old.stage is Transcribing,
        raw@.len() > 0,
        !is_blank(cfg.llm_api_key@),
        run_step(old, cfg, PipelineEvent::Transcribed(Ok(raw)), new, a),
    ensures
        old.mode == OutputMode::Translate ==> (a matches PipelineAction::Refine(req) && req.label@
            == "翻譯"@ && req.system_prompt@ == spec_translate_system_prompt(
            cfg.target_language@,
            cfg.vocabulary@,
            cfg.enable_formatting,
        ) && req.user_content@ == spec_translate_request(cfg.target_language@, raw@)),
        old.mode == OutputMode::Direct && cfg.enable_correction ==> (a matches PipelineAction::Refine(
            req,
        ) && req.label@ == "校正"@ && req.system_prompt@ == spec_system_prompt(
            cfg.vocabulary@,
            cfg.enable_formatting,
        ) && req.user_content@ == spec_correct_request(raw@)),
        new.mode == old.mode,
{
}

/// Whatever the language model does, something is output: its text, or the
/// transcript. A failure never loses the transcript, and only a successful
/// translation is marked as one.
pub proof fn law_fallback_keeps_transcript(
    mode: OutputMode,
    target_language: Seq<char>,
    raw: Seq<char>,
    reply: Result<Seq<char>, Seq<char>>,
    o: Outcome,
)
    requires
        finished(mode, target_language, raw, reply, o),
    ensures
        reply is Err ==> o.output.text@ == raw && !o.output.translated && o.notice is Some,
        (reply matches Ok(t) && t.len() == 0) ==> o.output.text@ == raw && o.notice is None,
        o.output.translated <==> (mode == OutputMode::Translate && (reply matches Ok(t) && t.len() > 0)),
{
}

/// The direct mode never translates and the correction switch never turns
/// translation off: with a key set, the translate mode always calls the
/// model with the translation instructions.
pub proof fn law_translate_ignores_correction_switch(cfg: Config, raw: Seq<char>, step: LlmStep)
    requires
        planned(cfg, OutputMode::Translate, raw, step),
        !is_blank(cfg.llm_api_key@),
    ensures
        (step matches LlmStep::Call(req) && req.label@ == "翻譯"@ && req.system_prompt@
            == spec_translate_system_prompt(cfg.target_language@, cfg.vocabulary@, cfg.enable_formatting)),
{
}

} // verus!
