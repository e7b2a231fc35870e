//! The settings and the rules read from them.
use vstd::prelude::*;
use crate::hotkey::{parse_key, spec_parse_key, HotKey};
use crate::text::{debug_quote, debug_quoted, is_blank, owned, trim, trim_str};

verus! {

/// All settings. API keys are only ever entered in the settings window.
#[derive(Clone, Debug)]
pub struct Config {
    pub stt_api_key: String,
    pub stt_api_url: String,
    pub stt_model: String,
    pub llm_api_key: String,
    pub llm_api_url: String,
    pub llm_model: String,
    pub enable_correction: bool,
    pub hotkey: String,
    /// Personal vocabulary: terms separated by commas or line breaks; empty
    /// means none. Used both for speech recognition and for correction.
    pub vocabulary: String,
    /// Lets long output be split into paragraphs or lists (off by default).
    pub enable_formatting: bool,
    /// The language that the translation hotkey translates into, as an
    /// English language name.
    pub target_language: String,
    /// The translation hotkey; empty turns translation off. It may not name
    /// the same key as `hotkey`.
    pub translate_hotkey: String,
}

pub open spec fn spec_default_stt_api_url() -> Seq<char> {
    "https://api.groq.com/openai/v1/audio/transcriptions"@
}

pub open spec fn spec_default_llm_api_url() -> Seq<char> {
    "https://api.groq.com/openai/v1/chat/completions"@
}

pub open spec fn spec_default_stt() -> Seq<char> {
    "whisper-large-v3-turbo"@
}

pub open spec fn spec_default_llm() -> Seq<char> {
    "llama-3.1-8b-instant"@
}

pub open spec fn spec_default_hotkey() -> Seq<char> {
    "right_alt"@
}

pub open spec fn spec_default_target_language() -> Seq<char> {
    "English"@
}

pub open spec fn spec_default_translate_hotkey() -> Seq<char> {
    "right_ctrl"@
}

/// Default speech-to-text endpoint.
pub fn default_stt_api_url() -> (r: String)
    ensures
        r@ == spec_default_stt_api_url(),
{
    owned("https://api.groq.com/openai/v1/audio/transcriptions")
}

/// Default chat-completions endpoint.
pub fn default_llm_api_url() -> (r: String)
    ensures
        r@ == spec_default_llm_api_url(),
{
    owned("https://api.groq.com/openai/v1/chat/completions")
}

/// Default speech-to-text model.
pub fn default_stt() -> (r: String)
    ensures
        r@ == spec_default_stt(),
{
    owned("whisper-large-v3-turbo")
}

/// Default correction / translation model.
pub fn default_llm() -> (r: String)
    ensures
        r@ == spec_default_llm(),
{
    owned("llama-3.1-8b-instant")
}

/// Default of the boolean settings that are on unless turned off.
pub fn default_true() -> (r: bool)
    ensures
        r,
{
    true
}

/// Default main hotkey.
pub fn default_hotkey() -> (r: String)
    ensures
        r@ == spec_default_hotkey(),
{
    owned("right_alt")
}

/// Default translation target.
pub fn default_target_language() -> (r: String)
    ensures
        r@ == spec_default_target_language(),
{
    owned("English")
}

/// Default translation hotkey.
pub fn default_translate_hotkey() -> (r: String)
    ensures
        r@ == spec_default_translate_hotkey(),
{
    owned("right_ctrl")
}

impl Config {
    /// Whether every setting holds its default.
    pub open spec fn is_default(self) -> bool {
        &&& self.stt_api_key@ == Seq::<char>::empty()
        &&& self.stt_api_url@ == spec_default_stt_api_url()
        &&& self.stt_model@ == spec_default_stt()
        &&& self.llm_api_key@ == Seq::<char>::empty()
        &&& self.llm_api_url@ == spec_default_llm_api_url()
        &&& self.llm_model@ == spec_default_llm()
        &&& self.enable_correction
        &&& self.hotkey@ == spec_default_hotkey()
        &&& self.vocabulary@ == Seq::<char>::empty()
        &&& !self.enable_formatting
        &&& self.target_language@ == spec_default_target_language()
        &&& self.translate_hotkey@ == spec_default_translate_hotkey()
    }
}

impl Default for Config {
    /// The settings used when no settings file exists.
    fn default() -> (r: Config)
        ensures
            r.is_default(),
    {
        Config {
            stt_api_key: String::new(),
            stt_api_url: default_stt_api_url(),
            stt_model: default_stt(),
            llm_api_key: String::new(),
            llm_api_url: default_llm_api_url(),
            llm_model: default_llm(),
            enable_correction: default_true(),
            hotkey: default_hotkey(),
            vocabulary: String::new(),
            enable_formatting: false,
            target_language: default_target_language(),
            translate_hotkey: default_translate_hotkey(),
        }
    }
}

/// An API key that is not set.
pub struct MissingApiKey {
    /// Which service the key is for.
    pub label: String,
}

impl MissingApiKey {
    pub open spec fn spec_message(self) -> Seq<char> {
        "找不到"@ + self.label@ + " API key：請在設定視窗填入"@
    }

    /// The message shown to the user.
    pub fn message(&self) -> (r: String)
        ensures
            r@ == self.spec_message(),
    {
        let mut m = owned("找不到");
        m.append(self.label.as_str());
        m.append(" API key：請在設定視窗填入");
        m
    }
}

/// A configured API key: the trimmed setting, or an error when it is blank.
pub fn resolve_key(from_cfg: &str, label: &str) -> (r: Result<String, MissingApiKey>)
    ensures
        is_blank(from_cfg@) <==> r is Err,
        r matches Ok(k) ==> k@ == trim(from_cfg@),
        r matches Err(e) ==> e.label@ == label@,
{
    let k = trim_str(from_cfg);
    if !k.as_str().is_empty() {
        proof {
            assert(k@.len() != 0);
        }
        Ok(k)
    } else {
        proof {
            assert(k@.len() == 0);
        }
        Err(MissingApiKey { label: owned(label) })
    }
}

/// Label of the speech-to-text key.
pub open spec fn stt_label() -> Seq<char> {
    "STT"@
}

/// Label of the correction / translation key.
pub open spec fn llm_label() -> Seq<char> {
    "LLM 校正"@
}

/// Why the translation hotkey setting cannot be used.
pub enum TranslateKeyError {
    /// The setting names no known key; holds the trimmed setting.
    Unrecognized(String),
    /// The setting names the main hotkey's key; holds the trimmed setting.
    SameAsMain(String),
}

impl TranslateKeyError {
    pub open spec fn spec_message(self) -> Seq<char> {
        match self {
            TranslateKeyError::Unrecognized(raw) => "無法辨識的翻譯熱鍵設定: "@ + debug_quoted(raw@),
            TranslateKeyError::SameAsMain(raw) => "翻譯熱鍵與主熱鍵相同（"@ + debug_quoted(raw@)
                + "），已停用翻譯功能"@,
        }
    }

    /// The message shown to the user (the translation hotkey is then off).
    pub fn message(&self) -> (r: String)
        ensures
            r@ == self.spec_message(),
    {
        match self {
            TranslateKeyError::Unrecognized(raw) => {
                let q = debug_quote(raw.as_str());
                let mut m = owned("無法辨識的翻譯熱鍵設定: ");
                m.append(q.as_str());
                m
            },
            TranslateKeyError::SameAsMain(raw) => {
                let q = debug_quote(raw.as_str());
                let mut m = owned("翻譯熱鍵與主熱鍵相同（");
                m.append(q.as_str());
                m.append("），已停用翻譯功能");
                m
            },
        }
    }
}

/// The key the main hotkey setting puts to use: the key its trimmed text
/// names, or the right Alt key when it names none.
pub open spec fn spec_effective_main_key(hotkey: Seq<char>) -> HotKey {
    match spec_parse_key(trim(hotkey)) {
        Some(k) => k,
        None => HotKey::AltGr,
    }
}

/// The main hotkey in use: the key the trimmed setting names, falling back
/// to the right Alt key for a setting that names none.
pub fn effective_main_key(hotkey: &str) -> (k: HotKey)
    ensures
        k == spec_effective_main_key(hotkey@),
{
    let t = trim_str(hotkey);
    match parse_key(t.as_str()) {
        Some(k) => k,
        None => HotKey::AltGr,
    }
}

/// The key that a translation hotkey setting selects, given the main hotkey
/// setting: `Ok(None)` when the setting is blank, the key when it names one
/// other than the main hotkey in use, and an error otherwise.
pub open spec fn spec_translate_key(hotkey: Seq<char>, translate_hotkey: Seq<char>) -> Result<
    Option<HotKey>,
    (bool, Seq<char>),
> {
    let raw = trim(translate_hotkey);
    if raw.len() == 0 {
        Ok(None)
    } else if spec_parse_key(raw) is None {
        Err((false, raw))
    } else if spec_parse_key(raw) == Some(spec_effective_main_key(hotkey)) {
        Err((true, raw))
    } else {
        Ok(spec_parse_key(raw))
    }
}

impl TranslateKeyError {
    /// This error as `(same_as_main, trimmed setting)`.
    pub open spec fn spec_view(self) -> (bool, Seq<char>) {
        match self {
            TranslateKeyError::Unrecognized(raw) => (false, raw@),
            TranslateKeyError::SameAsMain(raw) => (true, raw@),
        }
    }
}

/// The `Result` of a translation key lookup with its error by view.
pub open spec fn translate_key_view(r: Result<Option<HotKey>, TranslateKeyError>) -> Result<
    Option<HotKey>,
    (bool, Seq<char>),
> {
    match r {
        Ok(k) => Ok(k),
        Err(e) => Err(e.spec_view()),
    }
}

impl Config {
    /// The speech-to-text API key.
    pub fn resolve_stt_api_key(&self) -> (r: Result<String, MissingApiKey>)
        ensures
            is_blank(self.stt_api_key@) <==> r is Err,
            r matches Ok(k) ==> k@ == trim(self.stt_api_key@),
            r matches Err(e) ==> e.label@ == stt_label(),
    {
        resolve_key(self.stt_api_key.as_str(), "STT")
    }

    /// The correction / translation API key.
    pub fn resolve_llm_api_key(&self) -> (r: Result<String, MissingApiKey>)
        ensures
            is_blank(self.llm_api_key@) <==> r is Err,
            r matches Ok(k) ==> k@ == trim(self.llm_api_key@),
            r matches Err(e) ==> e.label@ == llm_label(),
    {
        resolve_key(self.llm_api_key.as_str(), "LLM 校正")
    }

    /// The translation hotkey, checked against the main hotkey in use
    /// (`effective_main_key`): a translation hotkey on the same key is refused.
    pub fn resolved_translate_key(&self) -> (r: Result<Option<HotKey>, TranslateKeyError>)
        ensures
            translate_key_view(r) == spec_translate_key(self.hotkey@, self.translate_hotkey@),
            r matches Ok(Some(k)) ==> k != spec_effective_main_key(self.hotkey@),
    {
        let raw = trim_str(self.translate_hotkey.as_str());
        if raw.as_str().is_empty() {
            return Ok(None);
        }
        match parse_key(raw.as_str()) {
            None => Err(TranslateKeyError::Unrecognized(raw)),
            Some(key) => {
                if key == effective_main_key(self.hotkey.as_str()) {
                    Err(TranslateKeyError::SameAsMain(raw))
                } else {
                    Ok(Some(key))
                }
            },
        }
    }
}

/// The translation hotkey in use is never on the main hotkey's key, as the
/// main hotkey is put to use (fallback included).
pub proof fn law_translate_key_not_main(hotkey: Seq<char>, translate_hotkey: Seq<char>, k: HotKey)
    requires
        spec_translate_key(hotkey, translate_hotkey) == Ok::<Option<HotKey>, (bool, Seq<char>)>(Some(k)),
    ensures
        k != spec_effective_main_key(hotkey),
        spec_parse_key(trim(translate_hotkey)) == Some(k),
{
}

/// The startup check agrees with the save-time check: a translation hotkey
/// that a save would refuse as naming the main hotkey's key is refused at
/// startup too.
pub proof fn law_startup_refuses_what_save_refuses(hotkey: Seq<char>, translate_hotkey: Seq<char>)
    requires
        !is_blank(translate_hotkey),
        spec_parse_key(trim(translate_hotkey)) is Some,
        spec_parse_key(trim(translate_hotkey)) == spec_parse_key(trim(hotkey)),
    ensures
        spec_translate_key(hotkey, translate_hotkey) is Err,
{
}

} // verus!
