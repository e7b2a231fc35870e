//! What the settings window reads and writes.
use vstd::prelude::*;
use crate::config::Config;
use crate::hotkey::{parse_key, spec_parse_key};
use crate::text::{debug_quote, debug_quoted, is_blank, is_blank_str, lemma_trim_idempotent, owned, trim, trim_str};

verus! {

/// The settings as the settings window sees them: API keys are never handed
/// out, only whether each is set.
pub struct ConfigView {
    pub has_stt_api_key: bool,
    pub stt_api_url: String,
    pub stt_model: String,
    pub has_llm_api_key: bool,
    pub llm_api_url: String,
    pub llm_model: String,
    pub enable_correction: bool,
    pub hotkey: String,
    pub vocabulary: String,
    pub enable_formatting: bool,
    pub target_language: String,
    pub translate_hotkey: String,
}

/// The settings as the settings window submits them. A blank API key means
/// "keep the current key".
pub struct ConfigUpdate {
    pub stt_api_key: String,
    pub stt_api_url: String,
    pub stt_model: String,
    pub llm_api_key: String,
    pub llm_api_url: String,
    pub llm_model: String,
    pub enable_correction: bool,
    pub hotkey: String,
    pub vocabulary: String,
    pub enable_formatting: bool,
    pub target_language: String,
    pub translate_hotkey: String,
}

/// Whether `v` is what the settings window is shown for `c`.
pub open spec fn view_of(c: Config, v: ConfigView) -> bool {
    &&& v.has_stt_api_key == !is_blank(c.stt_api_key@)
    &&& v.stt_api_url@ == c.stt_api_url@
    &&& v.stt_model@ == c.stt_model@
    &&& v.has_llm_api_key == !is_blank(c.llm_api_key@)
    &&& v.llm_api_url@ == c.llm_api_url@
    &&& v.llm_model@ == c.llm_model@
    &&& v.enable_correction == c.enable_correction
    &&& v.hotkey@ == c.hotkey@
    &&& v.vocabulary@ == c.vocabulary@
    &&& v.enable_formatting == c.enable_formatting
    &&& v.target_language@ == c.target_language@
    &&& v.translate_hotkey@ == c.translate_hotkey@
}

/// The settings window's view of `c`.
pub fn config_view(c: &Config) -> (v: ConfigView)
    ensures
        view_of(*c, v),
        v.has_stt_api_key <==> trim(c.stt_api_key@).len() > 0,
        v.has_llm_api_key <==> trim(c.llm_api_key@).len() > 0,
        v.stt_api_url@ == c.stt_api_url@ && v.stt_model@ == c.stt_model@,
        v.llm_api_url@ == c.llm_api_url@ && v.llm_model@ == c.llm_model@,
        v.hotkey@ == c.hotkey@ && v.translate_hotkey@ == c.translate_hotkey@,
        v.target_language@ == c.target_language@ && v.vocabulary@ == c.vocabulary@,
        v.enable_correction == c.enable_correction && v.enable_formatting == c.enable_formatting,
{
    ConfigView {
        has_stt_api_key: !is_blank_str(c.stt_api_key.as_str()),
        stt_api_url: c.stt_api_url.clone(),
        stt_model: c.stt_model.clone(),
        has_llm_api_key: !is_blank_str(c.llm_api_key.as_str()),
        llm_api_url: c.llm_api_url.clone(),
        llm_model: c.llm_model.clone(),
        enable_correction: c.enable_correction,
        hotkey: c.hotkey.clone(),
        vocabulary: c.vocabulary.clone(),
        enable_formatting: c.enable_formatting,
        target_language: c.target_language.clone(),
        translate_hotkey: c.translate_hotkey.clone(),
    }
}

/// Whether a settings form may be saved, as its error message: the
/// translation hotkey, once trimmed, is blank or names a key other than the
/// trimmed main hotkey's.
pub open spec fn spec_validate_translate_hotkey(hotkey: Seq<char>, translate_hotkey: Seq<char>) -> Result<(), Seq<char>> {
    let t = trim(translate_hotkey);
    if t.len() == 0 {
        Ok(())
    } else if spec_parse_key(t) is None {
        Err("無法辨識的翻譯熱鍵設定: "@ + debug_quoted(t))
    } else if spec_parse_key(trim(hotkey)) == spec_parse_key(t) {
        Err("翻譯熱鍵不可與主熱鍵相同"@)
    } else {
        Ok(())
    }
}

/// A `Result<(), String>` by view.
pub open spec fn unit_result_view(r: Result<(), String>) -> Result<(), Seq<char>> {
    match r {
        Ok(()) => Ok(()),
        Err(e) => Err(e@),
    }
}

/// Checks the translation hotkey of a settings form against its main hotkey.
pub fn validate_translate_hotkey(hotkey: &str, translate_hotkey: &str) -> (r: Result<(), String>)
    ensures
        unit_result_view(r) == spec_validate_translate_hotkey(hotkey@, translate_hotkey@),
{
    let translate = trim_str(translate_hotkey);
    if translate.as_str().is_empty() {
        return Ok(());
    }
    let t_key = match parse_key(translate.as_str()) {
        Some(k) => k,
        None => {
            let q = debug_quote(translate.as_str());
            let mut m = owned("無法辨識的翻譯熱鍵設定: ");
            m.append(q.as_str());
            return Err(m);
        },
    };
    let main = trim_str(hotkey);
    match parse_key(main.as_str()) {
        Some(m_key) => {
            if m_key == t_key {
                Err(owned("翻譯熱鍵不可與主熱鍵相同"))
            } else {
                Ok(())
            }
        },
        None => Ok(()),
    }
}

/// The refusal of a blank translation target.
pub open spec fn blank_target_language_message() -> Seq<char> {
    "翻譯目標語言不可為空"@
}

/// The translation target may not be blank.
pub fn validate_target_language(target_language: &str) -> (r: Result<(), String>)
    ensures
        is_blank(target_language@) ==> (r matches Err(e) && e@ == blank_target_language_message()),
        !is_blank(target_language@) ==> r is Ok,
{
    if is_blank_str(target_language) {
        Err(owned("翻譯目標語言不可為空"))
    } else {
        Ok(())
    }
}

/// Whether a settings form may be saved, as its error message: first the
/// translation hotkey, then the translation target.
pub open spec fn spec_validate_update(u: ConfigUpdate) -> Result<(), Seq<char>> {
    match spec_validate_translate_hotkey(u.hotkey@, u.translate_hotkey@) {
        Err(e) => Err(e),
        Ok(()) => if is_blank(u.target_language@) {
            Err(blank_target_language_message())
        } else {
            Ok(())
        },
    }
}

/// Whether `new` is `old` with the form `u` written into it: every field
/// taken from the form, but an API key only when the form's is not blank,
/// and then trimmed.
pub open spec fn update_applied(old: Config, new: Config, u: ConfigUpdate) -> bool {
    &&& (if is_blank(u.stt_api_key@) {
        new.stt_api_key@ == old.stt_api_key@
    } else {
        new.stt_api_key@ == trim(u.stt_api_key@)
    })
    &&& new.stt_api_url@ == u.stt_api_url@
    &&& new.stt_model@ == u.stt_model@
    &&& (if is_blank(u.llm_api_key@) {
        new.llm_api_key@ == old.llm_api_key@
    } else {
        new.llm_api_key@ == trim(u.llm_api_key@)
    })
    &&& new.llm_api_url@ == u.llm_api_url@
    &&& new.llm_model@ == u.llm_model@
    &&& new.enable_correction == u.enable_correction
    &&& new.hotkey@ == u.hotkey@
    &&& new.vocabulary@ == u.vocabulary@
    &&& new.enable_formatting == u.enable_formatting
    &&& new.target_language@ == u.target_language@
    &&& new.translate_hotkey@ == u.translate_hotkey@
}

/// Writes a settings form into the settings. A refused form (see
/// `spec_validate_update`) leaves the settings as they were and gives the
/// refusal.
pub fn apply_config_update(c: &mut Config, u: ConfigUpdate) -> (r: Result<(), String>)
    ensures
        unit_result_view(r) == spec_validate_update(u),
        r is Ok ==> update_applied(*old(c), *final(c), u),
        r is Err ==> *final(c) == *old(c),
        r is Ok && !is_blank(u.stt_api_key@) ==> final(c).stt_api_key@ == trim(u.stt_api_key@),
        r is Ok && !is_blank(u.llm_api_key@) ==> final(c).llm_api_key@ == trim(u.llm_api_key@),
        r is Ok && is_blank(u.stt_api_key@) ==> final(c).stt_api_key == old(c).stt_api_key,
        r is Ok && is_blank(u.llm_api_key@) ==> final(c).llm_api_key == old(c).llm_api_key,
        r is Ok ==> final(c).stt_api_url@ == u.stt_api_url@ && final(c).stt_model@ == u.stt_model@
            && final(c).llm_api_url@ == u.llm_api_url@ && final(c).llm_model@ == u.llm_model@
            && final(c).hotkey@ == u.hotkey@ && final(c).translate_hotkey@ == u.translate_hotkey@
            && final(c).target_language@ == u.target_language@ && final(c).vocabulary@
            == u.vocabulary@ && final(c).enable_correction == u.enable_correction
            && final(c).enable_formatting == u.enable_formatting,
{
    match validate_translate_hotkey(u.hotkey.as_str(), u.translate_hotkey.as_str()) {
        Err(e) => {
            return Err(e);
        },
        Ok(()) => {},
    }
    match validate_target_language(u.target_language.as_str()) {
        Err(e) => {
            return Err(e);
        },
        Ok(()) => {},
    }
    let ConfigUpdate {
        stt_api_key,
        stt_api_url,
        stt_model,
        llm_api_key,
        llm_api_url,
        llm_model,
        enable_correction,
        hotkey,
        vocabulary,
        enable_formatting,
        target_language,
        translate_hotkey,
    } = u;
    let stt_key = trim_str(stt_api_key.as_str());
    if !stt_key.as_str().is_empty() {
        c.stt_api_key = stt_key;
    }
    c.stt_api_url = stt_api_url;
    c.stt_model = stt_model;
    let llm_key = trim_str(llm_api_key.as_str());
    if !llm_key.as_str().is_empty() {
        c.llm_api_key = llm_key;
    }
    c.llm_api_url = llm_api_url;
    c.llm_model = llm_model;
    c.enable_correction = enable_correction;
    c.hotkey = hotkey;
    c.vocabulary = vocabulary;
    c.enable_formatting = enable_formatting;
    c.target_language = target_language;
    c.translate_hotkey = translate_hotkey;
    Ok(())
}

/// Read after write: once a form is saved, the settings window shows the
/// form's values, and each API key counts as set exactly when the form gave
/// one or one was set before.
pub proof fn law_view_after_update(old: Config, new: Config, u: ConfigUpdate, v: ConfigView)
    requires
        update_applied(old, new, u),
        view_of(new, v),
    ensures
        v.has_stt_api_key == (!is_blank(u.stt_api_key@) || !is_blank(old.stt_api_key@)),
        v.has_llm_api_key == (!is_blank(u.llm_api_key@) || !is_blank(old.llm_api_key@)),
        v.stt_api_url@ == u.stt_api_url@,
        v.stt_model@ == u.stt_model@,
        v.llm_api_url@ == u.llm_api_url@,
        v.llm_model@ == u.llm_model@,
        v.enable_correction == u.enable_correction,
        v.hotkey@ == u.hotkey@,
        v.vocabulary@ == u.vocabulary@,
        v.enable_formatting == u.enable_formatting,
        v.target_language@ == u.target_language@,
        v.translate_hotkey@ == u.translate_hotkey@,
{
    lemma_trim_idempotent(u.stt_api_key@);
    lemma_trim_idempotent(u.llm_api_key@);
}

/// A saved form never gives both hotkeys the same key: when its translation
/// hotkey is not blank, it names a key, and not the main hotkey's.
pub proof fn law_saved_hotkeys_differ(u: ConfigUpdate)
    requires
        spec_validate_update(u) is Ok,
        !is_blank(u.translate_hotkey@),
    ensures
        spec_parse_key(trim(u.translate_hotkey@)) is Some,
        spec_parse_key(trim(u.translate_hotkey@)) != spec_parse_key(trim(u.hotkey@)),
        !is_blank(u.target_language@),
{
}

/// A key given in the form replaces the stored key, whatever was stored
/// before: the stored key becomes the form's key, trimmed.
pub proof fn law_given_key_replaces_key(old: Config, new: Config, u: ConfigUpdate)
    requires
        update_applied(old, new, u),
    ensures
        !is_blank(u.stt_api_key@) ==> new.stt_api_key@ == trim(u.stt_api_key@),
        !is_blank(u.llm_api_key@) ==> new.llm_api_key@ == trim(u.llm_api_key@),
{
}

/// A form with blank API keys keeps the keys that were set.
pub proof fn law_blank_key_keeps_key(old: Config, new: Config, u: ConfigUpdate)
    requires
        update_applied(old, new, u),
        is_blank(u.stt_api_key@),
        is_blank(u.llm_api_key@),
    ensures
        new.stt_api_key@ == old.stt_api_key@,
        new.llm_api_key@ == old.llm_api_key@,
{
}

} // verus!
