//! What it means for a sequence of syllables to match a sequence of
//! characters: the mathematical model that the executable code is held to.
//!
//! Characters that are not Chinese take no part: the syllables are aligned
//! with the Chinese characters alone, in order. An ordinary syllable takes up
//! one of them and has to be one of its candidates. A syllable with an erhua
//! suffix takes up two: the first is passed over, the second has to write the
//! suffix.

use vstd::prelude::*;
use crate::oracle::{candidates_of, is_chinese};
use crate::syllable::{is_erhua, is_erhua_character};

verus! {

/// The Chinese characters of `hanzi`, in order.
pub open spec fn phonetic(hanzi: Seq<char>) -> Seq<char> {
    hanzi.filter(|c: char| is_chinese(c))
}

/// Why a syllable does not fit the characters that it is aligned with.
pub enum Fault {
    /// No Chinese character is left for the syllable, or, with
    /// `expecting_erhua`, none for its erhua suffix.
    HanziRanOut { expecting_erhua: bool },
    /// The syllable is no candidate of `character`.
    Phonetic { syllable: Seq<char>, character: char },
    /// The syllable has an erhua suffix, and `character`, which stands where
    /// the suffix is due, does not write it.
    Erhua { syllable: Seq<char>, character: char },
}

/// How many Chinese characters a syllable takes up.
pub open spec fn demand(syllable: Seq<char>) -> nat {
    if is_erhua(syllable) {
        2
    } else {
        1
    }
}

/// The fault of `syllable` against the Chinese characters `pending`, of which
/// it takes the first ones; `None` where it fits.
pub open spec fn fault_of(syllable: Seq<char>, pending: Seq<char>) -> Option<Fault> {
    if pending.len() == 0 {
        Some(Fault::HanziRanOut { expecting_erhua: false })
    } else if is_erhua(syllable) {
        if pending.len() == 1 {
            Some(Fault::HanziRanOut { expecting_erhua: true })
        } else if !is_erhua_character(pending[1]) {
            Some(Fault::Erhua { syllable, character: pending[1] })
        } else {
            None
        }
    } else if !candidates_of(pending[0]).contains(syllable) {
        Some(Fault::Phonetic { syllable, character: pending[0] })
    } else {
        None
    }
}

/// The Chinese characters that are left of `pending` once `syllable` has been
/// held against it, whether it fitted or not: none where they ran out.
pub open spec fn left_after(syllable: Seq<char>, pending: Seq<char>) -> Seq<char> {
    if pending.len() < demand(syllable) {
        Seq::empty()
    } else {
        pending.skip(demand(syllable) as int)
    }
}

/// The fault of the first of `syllables` that does not fit, each syllable
/// being held against what its predecessors left of `pending`; `None` where
/// all of them fit.
pub open spec fn first_fault(syllables: Seq<Seq<char>>, pending: Seq<char>) -> Option<Fault>
    decreases syllables.len(),
{
    if syllables.len() == 0 {
        None
    } else {
        match fault_of(syllables[0], pending) {
            Some(fault) => Some(fault),
            None => first_fault(syllables.drop_first(), left_after(syllables[0], pending)),
        }
    }
}

/// Whether the Chinese characters of `hanzi` run out before the first
/// mismatch, if any, is met.
pub open spec fn hanzi_runs_out(syllables: Seq<Seq<char>>, hanzi: Seq<char>) -> bool {
    first_fault(syllables, phonetic(hanzi)) matches Some(Fault::HanziRanOut { .. })
}

/// How many Chinese characters `syllables` take up between them.
pub open spec fn total_demand(syllables: Seq<Seq<char>>) -> nat
    decreases syllables.len(),
{
    if syllables.len() == 0 {
        0
    } else {
        demand(syllables[0]) + total_demand(syllables.drop_first())
    }
}

/// The place, among the Chinese characters, of the first one that the
/// syllable at `index` takes up when all syllables before it fit.
pub open spec fn place_of(syllables: Seq<Seq<char>>, index: int) -> int {
    total_demand(syllables.take(index)) as int
}

/// Whether the syllable at `index` fits the Chinese characters at its place
/// in `pending`.
pub open spec fn fits_at(syllables: Seq<Seq<char>>, pending: Seq<char>, index: int) -> bool {
    let place = place_of(syllables, index);
    if is_erhua(syllables[index]) {
        is_erhua_character(pending[place + 1])
    } else {
        candidates_of(pending[place]).contains(syllables[index])
    }
}

/// Whether each of `syllables` fits the Chinese characters at its place in
/// `pending`.
pub open spec fn every_syllable_fits(syllables: Seq<Seq<char>>, pending: Seq<char>) -> bool {
    forall|index: int| 0 <= index < syllables.len() ==> fits_at(syllables, pending, index)
}

/// A text without characters has no Chinese characters.
pub proof fn lemma_phonetic_empty()
    ensures
        phonetic(Seq::empty()) == Seq::<char>::empty(),
{
    let chinese = |c: char| is_chinese(c);
    Seq::<char>::empty().lemma_filter_len(chinese);
}

/// The Chinese characters of a text from `at` on: its character at `at`, if
/// that one is Chinese, and then those from `at + 1` on.
pub proof fn lemma_phonetic_unfold(hanzi: Seq<char>, at: int)
    requires
        0 <= at < hanzi.len(),
    ensures
        phonetic(hanzi.skip(at)) == (if is_chinese(hanzi[at]) {
            seq![hanzi[at]] + phonetic(hanzi.skip(at + 1))
        } else {
            phonetic(hanzi.skip(at + 1))
        }),
{
    let chinese = |c: char| is_chinese(c);
    let rest = hanzi.skip(at + 1);
    assert(hanzi.skip(at) =~= seq![hanzi[at]] + rest);
    rest.lemma_filter_prepend(hanzi[at], chinese);
}

} // verus!
