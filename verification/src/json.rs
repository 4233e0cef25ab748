//! The two records and their JSON text.
//!
//! A record is flat: a fixed list of members, each a string but for the score
//! of a prediction. This module fixes the members and their order and frames
//! the text. The writing of a string as a JSON string is left to `serde_json`;
//! what comes of it is spelled out here.

use crate::cstring::has_no_nul;
use crate::filetype::FileType;
use crate::number::lemma_score_chars;
use crate::number::Score;
use vstd::prelude::*;

verus! {

/// The digit that stands for `n` in base sixteen, in lower case.
pub open spec fn hex_digit(n: int) -> char {
    "0123456789abcdef"@[n]
}

/// How a character stands inside a JSON string: the double quote, the
/// backslash and the control characters are escaped, the latter by their short
/// form where JSON has one and by four hexadecimal digits where it has none;
/// every other character stands for itself.
pub open spec fn escaped(c: char) -> Seq<char> {
    if c == '"' {
        seq!['\\', '"']
    } else if c == '\\' {
        seq!['\\', '\\']
    } else if c == '\u{8}' {
        seq!['\\', 'b']
    } else if c == '\t' {
        seq!['\\', 't']
    } else if c == '\n' {
        seq!['\\', 'n']
    } else if c == '\u{c}' {
        seq!['\\', 'f']
    } else if c == '\r' {
        seq!['\\', 'r']
    } else if ' ' > c {
        seq!['\\', 'u', '0', '0', hex_digit(c as int / 16), hex_digit(c as int % 16)]
    } else {
        seq![c]
    }
}

/// The characters of `s`, each as it stands inside a JSON string.
pub open spec fn escaped_text(s: Seq<char>) -> Seq<char>
    decreases s.len(),
{
    if s.len() == 0 {
        seq![]
    } else {
        escaped(s[0]) + escaped_text(s.drop_first())
    }
}

/// The JSON string for the text `s`.
pub open spec fn json_string(s: Seq<char>) -> Seq<char> {
    seq!['"'] + escaped_text(s) + seq!['"']
}

/// No character is escaped to anything with a nul character in it: the nul
/// character itself is written with digits.
proof fn lemma_escaped_has_no_nul(c: char)
    ensures
        has_no_nul(escaped(c)),
{
    reveal_strlit("0123456789abcdef");
    let digits = "0123456789abcdef"@;
    assert(has_no_nul(digits));
    if ' ' > c {
        let high = c as int / 16;
        let low = c as int % 16;
        assert(digits[high] != '\0');
        assert(digits[low] != '\0');
    }
}

/// A JSON string holds no nul character, whatever text it is for.
pub proof fn lemma_json_string_has_no_nul(s: Seq<char>)
    ensures
        has_no_nul(escaped_text(s)),
        has_no_nul(json_string(s)),
    decreases s.len(),
{
    if s.len() > 0 {
        lemma_json_string_has_no_nul(s.drop_first());
        lemma_escaped_has_no_nul(s[0]);
    }
}

/// A character that stands for itself inside a JSON string.
pub open spec fn is_plain(c: char) -> bool {
    c >= ' ' && c != '"' && c != '\\'
}

/// A text of plain characters is put between double quotes and otherwise left
/// as it is.
pub proof fn lemma_plain_text_is_quoted(s: Seq<char>)
    requires
        forall|i: int| 0 <= i < s.len() ==> is_plain(#[trigger] s[i]),
    ensures
        escaped_text(s) == s,
        json_string(s) == seq!['"'] + s + seq!['"'],
    decreases s.len(),
{
    if s.len() > 0 {
        let rest = s.drop_first();
        assert forall|i: int| 0 <= i < rest.len() implies is_plain(#[trigger] rest[i]) by {
            assert(rest[i] == s[i + 1]);
        }
        lemma_plain_text_is_quoted(rest);
        assert(is_plain(s[0]));
        assert(seq![s[0]] + rest =~= s);
    } else {
        assert(escaped_text(s) =~= s);
    }
}

/// Calls `serde_json::to_string` on a string slice.
///
/// Believed of it without proof: it never fails on a string, and the text it
/// gives is the JSON string for `s` as `json_string` spells it out.
#[verifier::external_body]
fn quote(s: &str) -> (text: String)
    ensures
        text@ == json_string(s@),
{
    serde_json::to_string(s).expect("a string is always written")
}

/// The members of a prediction record, in the order in which they are written.
pub struct Prediction {
    /// Always `ok`.
    pub status: Seq<char>,
    /// The label of the outcome.
    pub output: Seq<char>,
    /// The confidence of the outcome, as a JSON number or `null`.
    pub score: Seq<char>,
    /// `none`, `low-confidence` or `overwrite-map`.
    pub overwrite_reason: Seq<char>,
    /// The label of the guess that was replaced, or `undefined`.
    pub dl: Seq<char>,
    /// Written under the name `type`: `directory`, `symlink` or `file`.
    pub kind: Seq<char>,
}

/// The members of an error record, in the order in which they are written.
pub struct Failure {
    /// Always `error`.
    pub status: Seq<char>,
    /// What went wrong, for a person to read.
    pub message: Seq<char>,
}

/// A prediction record about to be written.
pub struct PredictionJson<'a> {
    pub status: &'static str,
    pub output: &'a str,
    pub score: &'a Score,
    pub overwrite_reason: &'static str,
    pub dl: &'a str,
    pub kind: &'static str,
}

/// An error record about to be written.
pub struct ErrorJson<'a> {
    pub status: &'static str,
    pub message: &'a str,
}

impl<'a> View for PredictionJson<'a> {
    type V = Prediction;

    open spec fn view(&self) -> Prediction {
        Prediction {
            status: self.status@,
            output: self.output@,
            score: self.score@,
            overwrite_reason: self.overwrite_reason@,
            dl: self.dl@,
            kind: self.kind@,
        }
    }
}

impl<'a> View for ErrorJson<'a> {
    type V = Failure;

    open spec fn view(&self) -> Failure {
        Failure { status: self.status@, message: self.message@ }
    }
}

/// The record that describes an outcome.
pub open spec fn prediction_of(outcome: FileType) -> Prediction {
    Prediction {
        status: "ok"@,
        output: outcome.spec_output(),
        score: outcome.spec_score(),
        overwrite_reason: outcome.spec_overwrite_reason(),
        dl: outcome.spec_dl(),
        kind: outcome.spec_kind(),
    }
}

/// The record that reports a failure of the engine.
pub open spec fn failure_of(message: Seq<char>) -> Failure {
    Failure { status: "error"@, message }
}

/// The text of a prediction record.
pub open spec fn prediction_text(record: Prediction) -> Seq<char> {
    "{\"status\":"@ + json_string(record.status) + ",\"output\":"@ + json_string(record.output)
        + ",\"score\":"@ + record.score + ",\"overwrite_reason\":"@ + json_string(
        record.overwrite_reason,
    ) + ",\"dl\":"@ + json_string(record.dl) + ",\"type\":"@ + json_string(record.kind) + "}"@
}

/// The text of an error record.
pub open spec fn failure_text(record: Failure) -> Seq<char> {
    "{\"status\":"@ + json_string(record.status) + ",\"message\":"@ + json_string(record.message)
        + "}"@
}

/// No piece of the framing holds a nul character.
proof fn lemma_framing_has_no_nul()
    ensures
        has_no_nul("{\"status\":"@),
        has_no_nul(",\"output\":"@),
        has_no_nul(",\"score\":"@),
        has_no_nul(",\"overwrite_reason\":"@),
        has_no_nul(",\"dl\":"@),
        has_no_nul(",\"type\":"@),
        has_no_nul(",\"message\":"@),
        has_no_nul("}"@),
{
    reveal_strlit("{\"status\":");
    reveal_strlit(",\"output\":");
    reveal_strlit(",\"score\":");
    reveal_strlit(",\"overwrite_reason\":");
    reveal_strlit(",\"dl\":");
    reveal_strlit(",\"type\":");
    reveal_strlit(",\"message\":");
    reveal_strlit("}");
}

/// Appends `piece` to `out`; a text without a nul character stays one.
fn append(out: &mut String, piece: &str)
    requires
        has_no_nul(old(out)@),
        has_no_nul(piece@),
    ensures
        final(out)@ == old(out)@ + piece@,
        has_no_nul(final(out)@),
{
    out.append(piece);
}

impl<'a> PredictionJson<'a> {
    /// Writes the record out.
    pub fn to_json(&self) -> (text: String)
        ensures
            text@ == prediction_text(self@),
            has_no_nul(text@),
    {
        let score = self.score.as_str();
        proof {
            lemma_framing_has_no_nul();
            lemma_score_chars(score@);
            lemma_json_string_has_no_nul(self.status@);
            lemma_json_string_has_no_nul(self.output@);
            lemma_json_string_has_no_nul(self.overwrite_reason@);
            lemma_json_string_has_no_nul(self.dl@);
            lemma_json_string_has_no_nul(self.kind@);
        }
        let mut text = String::from_str("{\"status\":");
        append(&mut text, quote(self.status).as_str());
        append(&mut text, ",\"output\":");
        append(&mut text, quote(self.output).as_str());
        append(&mut text, ",\"score\":");
        append(&mut text, score);
        append(&mut text, ",\"overwrite_reason\":");
        append(&mut text, quote(self.overwrite_reason).as_str());
        append(&mut text, ",\"dl\":");
        append(&mut text, quote(self.dl).as_str());
        append(&mut text, ",\"type\":");
        append(&mut text, quote(self.kind).as_str());
        append(&mut text, "}");
        text
    }
}

impl<'a> ErrorJson<'a> {
    /// Writes the record out.
    pub fn to_json(&self) -> (text: String)
        ensures
            text@ == failure_text(self@),
            has_no_nul(text@),
    {
        proof {
            lemma_framing_has_no_nul();
            lemma_json_string_has_no_nul(self.status@);
            lemma_json_string_has_no_nul(self.message@);
        }
        let mut text = String::from_str("{\"status\":");
        append(&mut text, quote(self.status).as_str());
        append(&mut text, ",\"message\":");
        append(&mut text, quote(self.message).as_str());
        append(&mut text, "}");
        text
    }
}

/// Fills in the record that describes an outcome.
pub fn prediction_json<'a>(ft: &'a FileType) -> (record: PredictionJson<'a>)
    ensures
        record@ == prediction_of(*ft),
{
    PredictionJson {
        status: "ok",
        output: ft.output(),
        score: ft.score(),
        overwrite_reason: ft.overwrite_reason(),
        dl: ft.dl(),
        kind: ft.kind(),
    }
}

/// Fills in the record that reports a failure of the engine.
pub fn error_json<'a>(message: &'a str) -> (record: ErrorJson<'a>)
    ensures
        record@ == failure_of(message@),
{
    ErrorJson { status: "error", message }
}

/// The text of the record that describes an outcome.
pub fn filetype_to_json(ft: &FileType) -> (text: String)
    ensures
        text@ == prediction_text(prediction_of(*ft)),
        has_no_nul(text@),
{
    prediction_json(ft).to_json()
}

/// The text of the record that reports a failure of the engine.
pub fn error_to_json(message: &str) -> (text: String)
    ensures
        text@ == failure_text(failure_of(message@)),
        has_no_nul(text@),
{
    error_json(message).to_json()
}

} // verus!
