//! Verifies that a pinyin transcription corresponds, syllable by syllable, to
//! a sequence of Chinese characters.
//!
//! The transcription comes in twice: as it was written, for the diagnostics,
//! and split into its syllables, which are what is verified. Characters that
//! are not Chinese, such as punctuation, are skipped. A syllable with an
//! erhua suffix takes up a character for itself and one that writes the
//! suffix.

use vstd::prelude::*;
use vstd::pervasive::unreached;

pub mod aligner;
pub mod alignment;
pub mod laws;
pub mod message;
pub mod oracle;
pub mod outcome;
pub mod syllable;

use crate::aligner::Aligner;
use crate::alignment::{first_fault, hanzi_runs_out};
use crate::outcome::{is_verdict_of, MismatchError, Step};

verus! {

/// Steps through `syllables` until one of them does not fit.
fn walk(aligner: &mut Aligner, syllables: &Vec<String>) -> (step: Step)
    ensures
        step.tells(
            first_fault(syllables.deep_view(), old(aligner).pending()),
            old(aligner).pinyin_text(),
            old(aligner).hanzi_text(),
        ),
{
    let mut i: usize = 0;
    assert(syllables.deep_view().skip(0) =~= syllables.deep_view());
    while i < syllables.len()
        invariant
            i <= syllables.len(),
            aligner.pinyin_text() == old(aligner).pinyin_text(),
            aligner.hanzi_text() == old(aligner).hanzi_text(),
            first_fault(syllables.deep_view(), old(aligner).pending()) == first_fault(
                syllables.deep_view().skip(i as int),
                aligner.pending(),
            ),
        decreases syllables.len() - i,
    {
        proof {
            let rest = syllables.deep_view().skip(i as int);
            assert(rest.drop_first() =~= syllables.deep_view().skip(i + 1));
        }
        match aligner.step(syllables[i].as_str()) {
            Step::Advanced => {},
            other => {
                return other;
            },
        }
        i = i + 1;
    }
    Step::Advanced
}

/// Whether `hanzi_str` has a Chinese character for every syllable that is
/// reached: `false` where the characters run out before the first mismatch,
/// if any, is met.
pub fn hanzi_suffices(syllables: &Vec<String>, hanzi_str: &str) -> (enough: bool)
    ensures
        enough == !hanzi_runs_out(syllables.deep_view(), hanzi_str@),
{
    let mut aligner = Aligner::new("", hanzi_str);
    match walk(&mut aligner, syllables) {
        Step::HanziRanOut { .. } => false,
        _ => true,
    }
}

/// Verifies that `syllables`, the syllables of the transcription
/// `pinyin_str` in reading order, are a transcription of `hanzi_str`.
///
/// The caller sees to it that the Chinese characters do not run out. A
/// mismatch comes back as the error that names it; `Ok` says that every
/// syllable fits. Characters that are left over are not looked at.
pub fn match_pinyin_with_hanzi(
    pinyin_str: &str,
    syllables: &Vec<String>,
    hanzi_str: &str,
) -> (result: Result<(), MismatchError>)
    requires
        !hanzi_runs_out(syllables.deep_view(), hanzi_str@),
    ensures
        is_verdict_of(result, syllables.deep_view(), pinyin_str@, hanzi_str@),
{
    let mut aligner = Aligner::new(pinyin_str, hanzi_str);
    match walk(&mut aligner, syllables) {
        Step::Advanced => Ok(()),
        Step::Mismatch(error) => Err(error),
        Step::HanziRanOut { .. } => unreached(),
    }
}

/// Verifies as `match_pinyin_with_hanzi` does, for any two texts: `None`
/// where the Chinese characters run out.
pub fn try_match_pinyin_with_hanzi(
    pinyin_str: &str,
    syllables: &Vec<String>,
    hanzi_str: &str,
) -> (result: Option<Result<(), MismatchError>>)
    ensures
        result is None <==> hanzi_runs_out(syllables.deep_view(), hanzi_str@),
        result matches Some(verdict) ==> is_verdict_of(
            verdict,
            syllables.deep_view(),
            pinyin_str@,
            hanzi_str@,
        ),
{
    if hanzi_suffices(syllables, hanzi_str) {
        Some(match_pinyin_with_hanzi(pinyin_str, syllables, hanzi_str))
    } else {
        None
    }
}

} // verus!
