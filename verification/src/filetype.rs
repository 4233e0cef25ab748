//! What the engine found out about one input, and what a record says of it.
//!
//! `FileType` holds as plain values what the classification engine reports.
//! The spec functions of this module are the table by which the fields of a
//! record are derived from it; the executable functions compute them.

use crate::number::Score;
use vstd::prelude::*;

verus! {

/// Why the guess of the model was replaced by another content type.
#[derive(Clone, Copy, Debug, PartialEq, Eq, Structural)]
pub enum OverwriteReason {
    /// The guess scored below the threshold of its content type.
    LowConfidence,
    /// A fixed policy maps the guessed content type to another one.
    OverwriteMap,
}

/// A guess that was made first and then replaced.
#[derive(Debug)]
pub struct PriorGuess {
    /// The label of the content type that was guessed.
    pub label: String,
    /// Why it did not stand.
    pub reason: OverwriteReason,
}

/// The outcome of classifying one input.
#[derive(Debug)]
pub enum FileType {
    /// A directory; no content was looked at.
    Directory { label: String, score: Score },
    /// A symbolic link; no content was looked at.
    Symlink { label: String, score: Score },
    /// A regular file whose type a rule determined.
    Ruled { label: String, score: Score },
    /// A regular file whose type the model inferred. `prior` is there when
    /// the first guess was replaced, and `label` is then the replacement.
    Inferred { label: String, score: Score, prior: Option<PriorGuess> },
}

impl OverwriteReason {
    /// The reason as a record names it.
    pub open spec fn spec_as_str(self) -> Seq<char> {
        match self {
            OverwriteReason::LowConfidence => "low-confidence"@,
            OverwriteReason::OverwriteMap => "overwrite-map"@,
        }
    }

    /// The reason as a record names it.
    pub fn as_str(self) -> (text: &'static str)
        ensures
            text@ == self.spec_as_str(),
    {
        match self {
            OverwriteReason::LowConfidence => "low-confidence",
            OverwriteReason::OverwriteMap => "overwrite-map",
        }
    }
}

impl FileType {
    /// The guess that was replaced, if one was.
    pub open spec fn spec_prior(&self) -> Option<PriorGuess> {
        match self {
            FileType::Inferred { prior, .. } => *prior,
            _ => None,
        }
    }

    /// The field `output`: the label of the outcome.
    pub open spec fn spec_output(&self) -> Seq<char> {
        match self {
            FileType::Directory { label, .. } => label@,
            FileType::Symlink { label, .. } => label@,
            FileType::Ruled { label, .. } => label@,
            FileType::Inferred { label, .. } => label@,
        }
    }

    /// The field `score`: the confidence of the outcome, whatever its variant.
    pub open spec fn spec_score(&self) -> Seq<char> {
        match self {
            FileType::Directory { score, .. } => score@,
            FileType::Symlink { score, .. } => score@,
            FileType::Ruled { score, .. } => score@,
            FileType::Inferred { score, .. } => score@,
        }
    }

    /// The field `overwrite_reason`: the reason for which a guess was
    /// replaced, and `none` where none was.
    pub open spec fn spec_overwrite_reason(&self) -> Seq<char> {
        match self.spec_prior() {
            None => "none"@,
            Some(guess) => guess.reason.spec_as_str(),
        }
    }

    /// The field `dl`: the label of the guess that was replaced, and
    /// `undefined` where none was.
    pub open spec fn spec_dl(&self) -> Seq<char> {
        match self.spec_prior() {
            None => "undefined"@,
            Some(guess) => guess.label@,
        }
    }

    /// The field `type`: what kind of file-system entry the input is. Every
    /// regular file is a `file`, however its type was found.
    pub open spec fn spec_kind(&self) -> Seq<char> {
        match self {
            FileType::Directory { .. } => "directory"@,
            FileType::Symlink { .. } => "symlink"@,
            FileType::Ruled { .. } => "file"@,
            FileType::Inferred { .. } => "file"@,
        }
    }

    /// The guess that was replaced, if one was.
    pub fn prior(&self) -> (prior: Option<&PriorGuess>)
        ensures
            prior is Some <==> self.spec_prior() is Some,
            prior matches Some(guess) ==> *guess == self.spec_prior()->0,
    {
        match self {
            FileType::Inferred { prior, .. } => prior.as_ref(),
            _ => None,
        }
    }

    /// The field `output`.
    pub fn output(&self) -> (text: &str)
        ensures
            text@ == self.spec_output(),
    {
        match self {
            FileType::Directory { label, .. } => label.as_str(),
            FileType::Symlink { label, .. } => label.as_str(),
            FileType::Ruled { label, .. } => label.as_str(),
            FileType::Inferred { label, .. } => label.as_str(),
        }
    }

    /// The field `score`.
    pub fn score(&self) -> (score: &Score)
        ensures
            score@ == self.spec_score(),
    {
        match self {
            FileType::Directory { score, .. } => score,
            FileType::Symlink { score, .. } => score,
            FileType::Ruled { score, .. } => score,
            FileType::Inferred { score, .. } => score,
        }
    }

    /// The field `overwrite_reason`.
    pub fn overwrite_reason(&self) -> (text: &'static str)
        ensures
            text@ == self.spec_overwrite_reason(),
    {
        match self.prior() {
            None => "none",
            Some(guess) => guess.reason.as_str(),
        }
    }

    /// The field `dl`.
    pub fn dl(&self) -> (text: &str)
        ensures
            text@ == self.spec_dl(),
    {
        match self.prior() {
            None => "undefined",
            Some(guess) => guess.label.as_str(),
        }
    }

    /// The field `type`.
    pub fn kind(&self) -> (text: &'static str)
        ensures
            text@ == self.spec_kind(),
    {
        match self {
            FileType::Directory { .. } => "directory",
            FileType::Symlink { .. } => "symlink",
            FileType::Ruled { .. } => "file",
            FileType::Inferred { .. } => "file",
        }
    }
}

/// The three names of an overwrite reason differ from one another, and every
/// outcome has exactly one of them: `none` if and only if no guess was
/// replaced, and then `dl` is `undefined`; otherwise the name of the reason
/// for which the guess was replaced, and then `dl` is the label of that guess.
pub proof fn lemma_overwrite_reason_is_exclusive(outcome: FileType)
    ensures
        "none"@ != "low-confidence"@,
        "none"@ != "overwrite-map"@,
        "low-confidence"@ != "overwrite-map"@,
        outcome.spec_overwrite_reason() == "none"@ <==> outcome.spec_prior() is None,
        outcome.spec_prior() is None ==> outcome.spec_dl() == "undefined"@,
        outcome.spec_overwrite_reason() == "low-confidence"@ <==> (outcome.spec_prior() matches Some(
            guess,
        ) && guess.reason == OverwriteReason::LowConfidence),
        outcome.spec_overwrite_reason() == "overwrite-map"@ <==> (outcome.spec_prior() matches Some(
            guess,
        ) && guess.reason == OverwriteReason::OverwriteMap),
        outcome.spec_prior() matches Some(guess) ==> outcome.spec_dl() == guess.label@,
{
    reveal_strlit("none");
    reveal_strlit("low-confidence");
    reveal_strlit("overwrite-map");
    assert("none"@.len() == 4);
    assert("low-confidence"@.len() == 14);
    assert("overwrite-map"@.len() == 13);
}

} // verus!
