//! What the executable code hands back: the result of one step, and the
//! mismatch that a caller is told of.

use vstd::prelude::*;
use crate::alignment::{first_fault, phonetic, Fault};
use crate::oracle::candidates_of;
use crate::message::{
    debug_of, debug_text, erhua_sentence, erhua_text, phonetic_sentence, phonetic_text,
};

verus! {

/// A syllable that does not fit the character that it is aligned with.
#[derive(Debug, PartialEq, Eq)]
pub enum MismatchError {
    /// `syllable` is none of `candidates`, the candidate set of `character`.
    /// The two texts are those of the whole call.
    PhoneticMismatch {
        syllable: String,
        candidates: Vec<String>,
        character: char,
        pinyin_text: String,
        hanzi_text: String,
    },
    /// `syllable` has an erhua suffix, and `character`, the Chinese
    /// character that stands where the suffix is due, does not write it.
    ErhuaMismatch { syllable: String, character: char },
}

impl MismatchError {
    /// Whether this error tells of `fault`, met while the two texts were
    /// matched: field by field, and with the full candidate set of the
    /// character.
    pub open spec fn reports(
        &self,
        fault: Fault,
        pinyin_text: Seq<char>,
        hanzi_text: Seq<char>,
    ) -> bool {
        match (*self, fault) {
            (
                MismatchError::PhoneticMismatch {
                    syllable,
                    candidates,
                    character,
                    pinyin_text: pinyin,
                    hanzi_text: hanzi,
                },
                Fault::Phonetic { syllable: faulty, character: aligned },
            ) => {
                &&& syllable@ == faulty
                &&& character == aligned
                &&& candidates.deep_view() == candidates_of(aligned)
                &&& pinyin@ == pinyin_text
                &&& hanzi@ == hanzi_text
            },
            (
                MismatchError::ErhuaMismatch { syllable, character },
                Fault::Erhua { syllable: faulty, character: found },
            ) => syllable@ == faulty && character == found,
            _ => false,
        }
    }

    /// The sentence that tells a reader of this error.
    pub open spec fn message_text(&self) -> Seq<char> {
        match *self {
            MismatchError::PhoneticMismatch {
                syllable,
                candidates,
                character,
                pinyin_text,
                hanzi_text,
            } => phonetic_text(
                syllable@,
                debug_text(candidates.deep_view()),
                character,
                pinyin_text@,
                hanzi_text@,
            ),
            MismatchError::ErhuaMismatch { syllable, character } => erhua_text(
                syllable@,
                character,
            ),
        }
    }

    /// Writes the error out as a sentence.
    pub fn message(&self) -> (text: String)
        ensures
            text@ == self.message_text(),
    {
        match self {
            MismatchError::PhoneticMismatch {
                syllable,
                candidates,
                character,
                pinyin_text,
                hanzi_text,
            } => phonetic_sentence(
                syllable.as_str(),
                debug_of(candidates).as_str(),
                *character,
                pinyin_text.as_str(),
                hanzi_text.as_str(),
            ),
            MismatchError::ErhuaMismatch { syllable, character } => erhua_sentence(
                syllable.as_str(),
                *character,
            ),
        }
    }
}

/// How one syllable fared.
#[derive(Debug, PartialEq, Eq)]
pub enum Step {
    /// The syllable fits; the next one can follow.
    Advanced,
    /// The syllable does not fit.
    Mismatch(MismatchError),
    /// No Chinese character was left for the syllable, or, with
    /// `expecting_erhua`, none for its erhua suffix.
    HanziRanOut { expecting_erhua: bool },
}

impl Step {
    /// Whether this result tells of `fault`, or, where `fault` is `None`, of
    /// a syllable that fits.
    pub open spec fn tells(
        &self,
        fault: Option<Fault>,
        pinyin_text: Seq<char>,
        hanzi_text: Seq<char>,
    ) -> bool {
        match fault {
            None => *self is Advanced,
            Some(Fault::HanziRanOut { expecting_erhua }) => *self == (Step::HanziRanOut {
                expecting_erhua,
            }),
            Some(fault) => *self matches Step::Mismatch(error) && error.reports(
                fault,
                pinyin_text,
                hanzi_text,
            ),
        }
    }
}

/// Whether `result` is what the verification of `syllables`, the syllables
/// of `pinyin_text`, against `hanzi_text` comes to where the characters do
/// not run out: `Ok` where every syllable fits, and else the error that
/// reports the fault of the first one that does not.
pub open spec fn is_verdict_of(
    result: Result<(), MismatchError>,
    syllables: Seq<Seq<char>>,
    pinyin_text: Seq<char>,
    hanzi_text: Seq<char>,
) -> bool {
    match first_fault(syllables, phonetic(hanzi_text)) {
        None => result is Ok,
        Some(fault) => result matches Err(error) && error.reports(
            fault,
            pinyin_text,
            hanzi_text,
        ),
    }
}

} // verus!
