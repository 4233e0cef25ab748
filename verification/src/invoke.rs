//! One classification call, but for the engine's part in it.
//!
//! A call has two halves with the engine between them. Before the engine is
//! consulted the arguments are looked at: an absent session or input ends the
//! call at once. After it, whatever the engine said becomes a record in a
//! nul-terminated buffer.

use crate::cstring::c_bytes;
use crate::cstring::cstring_or_null;
use crate::filetype::FileType;
use crate::json::error_to_json;
use crate::json::failure_of;
use crate::json::failure_text;
use crate::json::filetype_to_json;
use crate::json::json_string;
use crate::json::lemma_plain_text_is_quoted;
use crate::json::prediction_of;
use crate::json::prediction_text;
use vstd::prelude::*;
use vstd::utf8::decode_utf8;
use vstd::utf8::valid_utf8;

verus! {

/// The text that `String::from_utf8_lossy` makes of `bytes`: their decoding,
/// with the replacement character in place of what is not UTF-8.
pub uninterp spec fn lossy_text(bytes: Seq<u8>) -> Seq<char>;

/// Calls `String::from_utf8_lossy`.
///
/// Believed of it without proof: the text is a function of the bytes alone,
/// and bytes that are UTF-8 are decoded as they are.
#[verifier::external_body]
fn decode_lossy(bytes: &[u8]) -> (text: String)
    ensures
        text@ == lossy_text(bytes@),
        valid_utf8(bytes@) ==> text@ == decode_utf8(bytes@),
{
    String::from_utf8_lossy(bytes).into_owned()
}

/// What becomes of a call once its arguments have been looked at.
pub enum Admission<S, I> {
    /// An argument is absent. The call ends with no buffer, and the engine is
    /// not consulted.
    Rejected,
    /// Both arguments are there. The engine is to classify `input` in
    /// `session`.
    Admitted { session: S, input: I },
}

/// Looks at the arguments of a call that names a path. An absent `session` or
/// `path` stands for the null sentinel. The engine takes a path as text: bytes
/// that are not UTF-8 are replaced, never refused.
pub fn admit_path<S>(session: Option<S>, path: Option<&[u8]>) -> (admission: Admission<S, String>)
    ensures
        admission is Rejected <==> (session is None || path is None),
        admission matches Admission::Admitted { session: s, input } ==> {
            &&& session == Some(s)
            &&& input@ == lossy_text(path->0@)
            &&& valid_utf8(path->0@) ==> input@ == decode_utf8(path->0@)
        },
{
    match (session, path) {
        (Some(session), Some(bytes)) => Admission::Admitted { session, input: decode_lossy(bytes) },
        _ => Admission::Rejected,
    }
}

/// Looks at the arguments of a call that hands over content. An absent
/// `session` or `data` stands for the null sentinel. The content may be empty
/// and need not be text.
pub fn admit_content<'a, S>(session: Option<S>, data: Option<&'a [u8]>) -> (admission: Admission<
    S,
    &'a [u8],
>)
    ensures
        admission is Rejected <==> (session is None || data is None),
        admission matches Admission::Admitted { session: s, input } ==> {
            &&& session == Some(s)
            &&& data == Some(input)
        },
{
    match (session, data) {
        (Some(session), Some(input)) => Admission::Admitted { session, input },
        _ => Admission::Rejected,
    }
}

/// What a record says of the engine's answer in its `status` member.
pub open spec fn reply_status(verdict: Result<FileType, String>) -> Seq<char> {
    match verdict {
        Ok(_) => "ok"@,
        Err(_) => "error"@,
    }
}

/// The text of the record for the engine's answer: a prediction for an
/// outcome, an error record for a failure and its message.
pub open spec fn reply_text(verdict: Result<FileType, String>) -> Seq<char> {
    match verdict {
        Ok(outcome) => prediction_text(prediction_of(outcome)),
        Err(message) => failure_text(failure_of(message@)),
    }
}

/// Turns the engine's answer into the buffer that the caller gets. There
/// always is one, for a failure of the engine too: a record holds no nul
/// character.
pub fn reply(verdict: Result<FileType, String>) -> (buffer: Option<Vec<u8>>)
    ensures
        buffer matches Some(bytes) && bytes@ == c_bytes(reply_text(verdict)),
{
    let text = match &verdict {
        Ok(outcome) => filetype_to_json(outcome),
        Err(message) => error_to_json(message.as_str()),
    };
    cstring_or_null(text)
}

/// Every record opens with its `status` member, which is `ok` for an outcome
/// and `error` for a failure, and nothing else.
pub proof fn lemma_reply_status(verdict: Result<FileType, String>)
    ensures
        "ok"@ != "error"@,
        reply_status(verdict) == "ok"@ || reply_status(verdict) == "error"@,
        reply_status(verdict) == "ok"@ <==> verdict is Ok,
        ("{\"status\":"@ + json_string(reply_status(verdict))).is_prefix_of(reply_text(verdict)),
        verdict is Ok ==> "{\"status\":\"ok\""@.is_prefix_of(reply_text(verdict)),
        verdict is Err ==> "{\"status\":\"error\""@.is_prefix_of(reply_text(verdict)),
{
    reveal_strlit("ok");
    reveal_strlit("error");
    reveal_strlit("{\"status\":");
    reveal_strlit("{\"status\":\"ok\"");
    reveal_strlit("{\"status\":\"error\"");
    lemma_plain_text_is_quoted("ok"@);
    lemma_plain_text_is_quoted("error"@);
    assert("{\"status\":"@ + json_string("ok"@) =~= "{\"status\":\"ok\""@);
    assert("{\"status\":"@ + json_string("error"@) =~= "{\"status\":\"error\""@);
}

} // verus!
