//! Interpretation of the remote service's response body. The body is
//! parsed once into the three fields the flow reads — the translated text
//! under `output.text`, and the explicit `code` and `message` of an error
//! payload — and every decision taken on those fields is verified.

use vstd::prelude::*;

use crate::errors::BackendError;
use crate::text::trim;
use crate::text::trim_spec;

verus! {

/// The fields of a response body that the flow reads. A body is
/// success-shaped when `text` is present and error-shaped when `code` is;
/// a body with neither did not match either expected shape.
pub struct ApiReply {
    pub text: Option<String>,
    pub code: Option<String>,
    pub message: Option<String>,
}

/// The three fields as sequences.
pub open spec fn reply_view(r: &ApiReply) -> (Option<Seq<char>>, Option<Seq<char>>, Option<
    Seq<char>,
>) {
    (r.text.deep_view(), r.code.deep_view(), r.message.deep_view())
}

/// What parsing a response body yields: `output.text`, `code` and
/// `message`, each absent when the body is not JSON or lacks the field.
/// The result depends on the body alone.
pub uninterp spec fn qwen_reply_of(body: Seq<char>) -> (
    Option<Seq<char>>,
    Option<Seq<char>>,
    Option<Seq<char>>,
);

/// Relies on serde_json: `from_str` parses the body into a JSON value,
/// and `get`/`as_str` read `output.text`, `code` and `message` out of it,
/// all pure functions of the body text.
#[verifier::external_body]
pub(crate) fn parse_reply(body: &str) -> (r: ApiReply)
    ensures
        reply_view(&r) == qwen_reply_of(body@),
{
    let v: Option<serde_json::Value> = serde_json::from_str(body).ok();
    let text = v
        .as_ref()
        .and_then(|v| v.get("output"))
        .and_then(|o| o.get("text"))
        .and_then(|t| t.as_str())
        .map(|s| s.to_string());
    let code = v.as_ref().and_then(|v| v.get("code")).and_then(|c| c.as_str()).map(
        |s| s.to_string(),
    );
    let message = v.as_ref().and_then(|v| v.get("message")).and_then(|m| m.as_str()).map(
        |s| s.to_string(),
    );
    ApiReply { text, code, message }
}

/// Whether the reply carries an explicit non-success code.
pub open spec fn reply_is_api_error(rep: (Option<Seq<char>>, Option<Seq<char>>, Option<Seq<char>>))
    -> bool {
    rep.1 is Some && rep.1->Some_0 != seq!['2', '0', '0']
}

/// The message an error reply carries, empty when it has none.
pub open spec fn reply_error_message(rep: (Option<Seq<char>>, Option<Seq<char>>, Option<Seq<char>>))
    -> Seq<char> {
    if rep.2 is Some {
        rep.2->Some_0
    } else {
        Seq::empty()
    }
}

/// Decides what a parsed reply means: an explicit non-success code fails
/// with the service's code and message; otherwise a present text succeeds,
/// trimmed of surrounding whitespace; a reply with neither is a parse
/// failure that keeps the raw body.
pub fn interpret_reply(reply: &ApiReply, raw_body: &str) -> (r: Result<String, BackendError>)
    ensures
        ({
            let rep = reply_view(reply);
            &&& (reply_is_api_error(rep) ==> (r matches Err(BackendError::RemoteApiError {
                code,
                message,
            }) && code@ == rep.1->Some_0 && message@ == reply_error_message(rep)))
            &&& (!reply_is_api_error(rep) && rep.0 is Some ==> (r matches Ok(t) && t@ == trim_spec(
                rep.0->Some_0,
            )))
            &&& (!reply_is_api_error(rep) && rep.0 is None ==> (r matches Err(
                BackendError::ResponseParseError { raw_body: rb },
            ) && rb@ == raw_body@))
        }),
{
    let is_error: bool = match &reply.code {
        Some(c) => {
            let ok_code = String::from_str("200");
            let equal = *c == ok_code;
            proof {
                reveal_strlit("200");
                assert(ok_code@ =~= seq!['2', '0', '0']);
            }
            !equal
        },
        None => false,
    };
    if is_error {
        let code = match &reply.code {
            Some(c) => c.clone(),
            None => String::new(),
        };
        let message = match &reply.message {
            Some(m) => m.clone(),
            None => String::new(),
        };
        Err(BackendError::RemoteApiError { code, message })
    } else {
        match &reply.text {
            Some(t) => Ok(trim(t.as_str())),
            None => Err(
                BackendError::ResponseParseError { raw_body: String::from_str(raw_body) },
            ),
        }
    }
}

} // verus!
