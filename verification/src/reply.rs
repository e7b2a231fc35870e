//! Reading the replies of the speech-recognition and chat endpoints.
use vstd::prelude::*;
use crate::text::{owned, trim, trim_str};

verus! {

/// What `serde_json` reads from `body` at member `key`: `None` when `body`
/// is not a JSON object; else `Some(Some(..))` with the member's text when
/// the member is a string, and `Some(None)` when it is missing or not a
/// string.
pub uninterp spec fn json_member_string(body: Seq<char>, key: Seq<char>) -> Option<Option<Seq<char>>>;

/// What `serde_json` reads from `body` at `value[k1][i][k2][k3]`: `None` when
/// `body` is not JSON; else `Some(Some(..))` with the text found there when
/// it is a string, and `Some(None)` otherwise (anything missing along the
/// way reads as `Null`).
pub uninterp spec fn json_string_at(
    body: Seq<char>,
    k1: Seq<char>,
    i: usize,
    k2: Seq<char>,
    k3: Seq<char>,
) -> Option<Option<Seq<char>>>;

/// An optional optional string by view.
pub open spec fn opt_opt_view(r: Option<Option<String>>) -> Option<Option<Seq<char>>> {
    match r {
        None => None,
        Some(None) => Some(None),
        Some(Some(s)) => Some(Some(s@)),
    }
}

/// Parses `body` with `serde_json::from_str` into a `serde_json::Value`
/// and, when it is an object, looks up member `key` (`Map::get`), keeping it
/// when it is a string. The contract names the result, a function of the
/// arguments alone; JSON's grammar is serde_json's and is not restated.
#[verifier::external_body]
fn read_member_string(body: &str, key: &str) -> (r: Option<Option<String>>)
    ensures
        opt_opt_view(r) == json_member_string(body@, key@),
{
    match serde_json::from_str::<serde_json::Value>(body) {
        Ok(serde_json::Value::Object(map)) => match map.get(key) {
            Some(serde_json::Value::String(t)) => Some(Some(t.clone())),
            _ => Some(None),
        },
        _ => None,
    }
}

/// Parses `body` with `serde_json::from_str` into a `serde_json::Value` and
/// indexes it as `value[k1][i][k2][k3]` with serde_json's `Index` (which
/// gives `Null` for anything missing and never panics), keeping the result
/// when it is a string. The contract names the result, a function of the
/// arguments alone.
#[verifier::external_body]
fn read_string_at(body: &str, k1: &str, i: usize, k2: &str, k3: &str) -> (r: Option<Option<String>>)
    ensures
        opt_opt_view(r) == json_string_at(body@, k1@, i, k2@, k3@),
{
    match serde_json::from_str::<serde_json::Value>(body) {
        Ok(v) => match &v[k1][i][k2][k3] {
            serde_json::Value::String(c) => Some(Some(c.clone())),
            _ => Some(None),
        },
        Err(_) => None,
    }
}

/// Why a speech-recognition reply gives no transcript.
pub enum SttError {
    /// The endpoint answered with an error status.
    Http { status: String, body: String },
    /// The reply is a JSON object without a string `"text"`.
    MissingText { body: String },
}

impl SttError {
    pub open spec fn spec_message(self) -> Seq<char> {
        match self {
            SttError::Http { status, body } => "STT 失敗（"@ + status@ + "）: "@ + body@,
            SttError::MissingText { body } => "STT 回應是 JSON 但缺少 text 欄位: "@ + body@,
        }
    }

    /// The message shown to the user.
    pub fn message(&self) -> (r: String)
        ensures
            r@ == self.spec_message(),
    {
        match self {
            SttError::Http { status, body } => {
                let mut m = owned("STT 失敗（");
                m.append(status.as_str());
                m.append("）: ");
                m.append(body.as_str());
                m
            },
            SttError::MissingText { body } => {
                let mut m = owned("STT 回應是 JSON 但缺少 text 欄位: ");
                m.append(body.as_str());
                m
            },
        }
    }
}

/// The member of a speech-recognition reply that holds the transcript.
pub open spec fn transcript_member() -> Seq<char> {
    "text"@
}

/// The transcript, given what the body parses to (`parsed`, as
/// `json_member_string` gives it for the transcript member): a JSON object
/// gives its string member and is refused without one; a body that is not
/// a JSON object is taken as the transcript itself. Either way it is trimmed.
pub open spec fn spec_transcript_parsed(success: bool, body: Seq<char>, parsed: Option<Option<Seq<char>>>) -> Option<Seq<char>> {
    if !success {
        None
    } else {
        match parsed {
            Some(Some(t)) => Some(trim(t)),
            Some(None) => None,
            None => Some(trim(body)),
        }
    }
}

/// The transcript in a speech-recognition reply.
pub open spec fn spec_transcript(success: bool, body: Seq<char>) -> Option<Seq<char>> {
    spec_transcript_parsed(success, body, json_member_string(body, transcript_member()))
}

/// Reads the transcript from a speech-recognition reply whose body has been
/// parsed: its status (whether it signals success, and as shown), its body,
/// and the body's transcript member as parsed.
pub fn transcript_from_parsed(success: bool, status: String, body: String, parsed: Option<Option<String>>) -> (r: Result<String, SttError>)
    ensures
        match r {
            Ok(t) => spec_transcript_parsed(success, body@, opt_opt_view(parsed)) == Some(t@),
            Err(SttError::Http { status: s, body: b }) => !success && s@ == status@ && b@ == body@,
            Err(SttError::MissingText { body: b }) => success && opt_opt_view(parsed) == Some(
                None::<Seq<char>>,
            ) && b@ == body@,
        },
        r is Ok <==> spec_transcript_parsed(success, body@, opt_opt_view(parsed)) is Some,
        match parsed {
            Some(Some(x)) => success ==> (r matches Ok(t) && t@ == trim(x@)),
            Some(None) => success ==> r is Err,
            None => success ==> (r matches Ok(t) && t@ == trim(body@)),
        },
        !success ==> r is Err,
{
    if !success {
        return Err(SttError::Http { status, body });
    }
    match parsed {
        Some(Some(t)) => Ok(trim_str(t.as_str())),
        Some(None) => Err(SttError::MissingText { body }),
        None => Ok(trim_str(body.as_str())),
    }
}

/// Reads the transcript from a speech-recognition reply: its status (whether
/// it signals success, and as shown) and its body, parsed for the `"text"`
/// member.
pub fn transcript_from_reply(success: bool, status: String, body: String) -> (r: Result<String, SttError>)
    ensures
        match r {
            Ok(t) => spec_transcript(success, body@) == Some(t@),
            Err(SttError::Http { status: s, body: b }) => !success && s@ == status@ && b@ == body@,
            Err(SttError::MissingText { body: b }) => success && spec_transcript(success, body@) is None
                && b@ == body@,
        },
        r is Ok <==> spec_transcript(success, body@) is Some,
{
    let parsed = read_member_string(body.as_str(), "text");
    transcript_from_parsed(success, status, body, parsed)
}

/// Why a chat reply gives no content.
pub enum LlmError {
    /// The endpoint answered with an error status.
    Http { label: String, status: String, body: String },
    /// The reply body is not JSON.
    NotJson { label: String },
}

impl LlmError {
    pub open spec fn spec_message(self) -> Seq<char> {
        match self {
            LlmError::Http { label, status, body } => label@ + " API 失敗（"@ + status@ + "）: "@
                + body@,
            LlmError::NotJson { label } => label@ + "回應非 JSON"@,
        }
    }

    /// The message shown to the user.
    pub fn message(&self) -> (r: String)
        ensures
            r@ == self.spec_message(),
    {
        match self {
            LlmError::Http { label, status, body } => {
                let mut m = label.clone();
                m.append(" API 失敗（");
                m.append(status.as_str());
                m.append("）: ");
                m.append(body.as_str());
                m
            },
            LlmError::NotJson { label } => {
                let mut m = label.clone();
                m.append("回應非 JSON");
                m
            },
        }
    }
}

/// The content of a chat reply, given what the body parses to (`parsed`, as
/// `json_string_at` gives it for the content path), trimmed; a reply without
/// content (null or missing) counts as empty content, which callers treat as
/// no answer.
pub open spec fn spec_chat_content_parsed(success: bool, parsed: Option<Option<Seq<char>>>) -> Option<Seq<char>> {
    if !success {
        None
    } else {
        match parsed {
            Some(Some(c)) => Some(trim(c)),
            Some(None) => Some(Seq::empty()),
            None => None,
        }
    }
}

/// The content of a chat reply: the string at `choices[0].message.content`.
pub open spec fn spec_chat_content(success: bool, body: Seq<char>) -> Option<Seq<char>> {
    spec_chat_content_parsed(success, json_string_at(body, "choices"@, 0, "message"@, "content"@))
}

/// Reads the content from a chat reply whose body has been parsed; `label`
/// names the request ("校正" or "翻譯") in error messages.
pub fn chat_content_from_parsed(
    success: bool,
    status: String,
    body: String,
    parsed: Option<Option<String>>,
    label: &str,
) -> (r: Result<String, LlmError>)
    ensures
        match r {
            Ok(c) => spec_chat_content_parsed(success, opt_opt_view(parsed)) == Some(c@),
            Err(LlmError::Http { label: l, status: s, body: b }) => !success && l@ == label@ && s@
                == status@ && b@ == body@,
            Err(LlmError::NotJson { label: l }) => success && parsed is None && l@ == label@,
        },
        r is Ok <==> spec_chat_content_parsed(success, opt_opt_view(parsed)) is Some,
        match parsed {
            Some(Some(x)) => success ==> (r matches Ok(c) && c@ == trim(x@)),
            Some(None) => success ==> (r matches Ok(c) && c@.len() == 0),
            None => r is Err,
        },
        !success ==> r is Err,
{
    if !success {
        return Err(LlmError::Http { label: owned(label), status, body });
    }
    match parsed {
        Some(Some(c)) => Ok(trim_str(c.as_str())),
        Some(None) => Ok(String::new()),
        None => Err(LlmError::NotJson { label: owned(label) }),
    }
}

/// Reads the content from a chat reply; `label` names the request
/// ("校正" or "翻譯") in error messages.
pub fn chat_content_from_reply(success: bool, status: String, body: String, label: &str) -> (r: Result<String, LlmError>)
    ensures
        match r {
            Ok(c) => spec_chat_content(success, body@) == Some(c@),
            Err(LlmError::Http { label: l, status: s, body: b }) => !success && l@ == label@ && s@
                == status@ && b@ == body@,
            Err(LlmError::NotJson { label: l }) => success && spec_chat_content(success, body@) is None
                && l@ == label@,
        },
        r is Ok <==> spec_chat_content(success, body@) is Some,
{
    let parsed = read_string_at(body.as_str(), "choices", 0, "message", "content");
    chat_content_from_parsed(success, status, body, parsed, label)
}

} // verus!
