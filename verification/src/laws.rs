//! What holds of every verification, proved from the model.

use vstd::prelude::*;
use crate::alignment::{
    demand, every_syllable_fits, fault_of, first_fault, fits_at, hanzi_runs_out, left_after,
    phonetic, place_of, total_demand, Fault,
};
use crate::oracle::{candidates_of, is_chinese};
use crate::syllable::{is_erhua, is_erhua_character, is_genuine_er, lemma_genuine_er_spelled};

verus! {

/// Characters that are not Chinese take no part: with a run of them put in
/// anywhere in the characters, at either end or between two of them, every
/// sequence of syllables fares as it did without.
pub proof fn skipped_characters_take_no_part(
    syllables: Seq<Seq<char>>,
    hanzi: Seq<char>,
    at: int,
    inserted: Seq<char>,
)
    requires
        0 <= at <= hanzi.len(),
        forall|i: int| 0 <= i < inserted.len() ==> !is_chinese(#[trigger] inserted[i]),
    ensures
        phonetic(hanzi.take(at) + inserted + hanzi.skip(at)) == phonetic(hanzi),
        first_fault(syllables, phonetic(hanzi.take(at) + inserted + hanzi.skip(at)))
            == first_fault(syllables, phonetic(hanzi)),
        hanzi_runs_out(syllables, hanzi.take(at) + inserted + hanzi.skip(at)) == hanzi_runs_out(
            syllables,
            hanzi,
        ),
{
    let chinese = |c: char| is_chinese(c);
    let before = hanzi.take(at);
    let after = hanzi.skip(at);
    inserted.lemma_all_neg_filter_empty(chinese);
    Seq::filter_distributes_over_add(before + inserted, after, chinese);
    Seq::filter_distributes_over_add(before, inserted, chinese);
    Seq::filter_distributes_over_add(before, after, chinese);
    assert(before + after =~= hanzi);
}

/// The genuine "er" syllables carry no erhua suffix: each takes up one
/// character and is held against that character's candidate set like any
/// ordinary syllable.
pub proof fn genuine_er_is_ordinary(syllable: Seq<char>, pending: Seq<char>)
    requires
        is_genuine_er(syllable),
    ensures
        syllable.len() == 2,
        syllable.last() == 'r',
        !is_erhua(syllable),
        demand(syllable) == 1,
        fault_of(syllable, pending) == (if pending.len() == 0 {
            Some(Fault::HanziRanOut { expecting_erhua: false })
        } else if candidates_of(pending[0]).contains(syllable) {
            None
        } else {
            Some(Fault::Phonetic { syllable, character: pending[0] })
        }),
{
    lemma_genuine_er_spelled(syllable);
}

/// Characters that follow those that the syllables take up are not looked
/// at: unless the characters run out, the syllables fare with `trailing`
/// behind the characters as they do without. So a transcription that is
/// verified stays verified.
pub proof fn trailing_characters_are_ignored(
    syllables: Seq<Seq<char>>,
    hanzi: Seq<char>,
    trailing: Seq<char>,
)
    requires
        !hanzi_runs_out(syllables, hanzi),
    ensures
        first_fault(syllables, phonetic(hanzi + trailing)) == first_fault(
            syllables,
            phonetic(hanzi),
        ),
        first_fault(syllables, phonetic(hanzi)) is None ==> first_fault(
            syllables,
            phonetic(hanzi + trailing),
        ) is None,
{
    let chinese = |c: char| is_chinese(c);
    Seq::filter_distributes_over_add(hanzi, trailing, chinese);
    lemma_more_pending(syllables, phonetic(hanzi), phonetic(trailing));
}

/// Further Chinese characters behind `pending` change nothing, unless
/// `pending` runs out.
proof fn lemma_more_pending(syllables: Seq<Seq<char>>, pending: Seq<char>, more: Seq<char>)
    requires
        !(first_fault(syllables, pending) matches Some(Fault::HanziRanOut { .. })),
    ensures
        first_fault(syllables, pending + more) == first_fault(syllables, pending),
    decreases syllables.len(),
{
    if syllables.len() > 0 && fault_of(syllables[0], pending) is None {
        let left = left_after(syllables[0], pending);
        assert(left_after(syllables[0], pending + more) =~= left + more);
        lemma_more_pending(syllables.drop_first(), left, more);
    }
}

/// Where the syllables of `prefix` all fit, there are characters enough for
/// them, and what follows them fares as it does alone against the characters
/// that they leave.
proof fn lemma_fitting_prefix(prefix: Seq<Seq<char>>, rest: Seq<Seq<char>>, pending: Seq<char>)
    requires
        first_fault(prefix, pending) is None,
    ensures
        total_demand(prefix) <= pending.len(),
        first_fault(prefix + rest, pending) == first_fault(
            rest,
            pending.skip(total_demand(prefix) as int),
        ),
    decreases prefix.len(),
{
    if prefix.len() == 0 {
        assert(pending.skip(0) =~= pending);
    } else {
        let first = prefix[0];
        let left = left_after(first, pending);
        assert((prefix + rest).drop_first() =~= prefix.drop_first() + rest);
        lemma_fitting_prefix(prefix.drop_first(), rest, left);
        assert(left.skip(total_demand(prefix.drop_first()) as int) =~= pending.skip(
            total_demand(prefix) as int,
        ));
    }
}

/// A syllable with an erhua suffix whose second character is Chinese and
/// does not write the suffix is an erhua mismatch that names the syllable
/// and that character, wherever the syllables before it fit.
pub proof fn erhua_violation_is_reported(syllables: Seq<Seq<char>>, hanzi: Seq<char>, index: int)
    requires
        0 <= index < syllables.len(),
        first_fault(syllables.take(index), phonetic(hanzi)) is None,
        is_erhua(syllables[index]),
        place_of(syllables, index) + 2 <= phonetic(hanzi).len(),
        !is_erhua_character(phonetic(hanzi)[place_of(syllables, index) + 1]),
    ensures
        is_chinese(phonetic(hanzi)[place_of(syllables, index) + 1]),
        first_fault(syllables, phonetic(hanzi)) == Some(
            Fault::Erhua {
                syllable: syllables[index],
                character: phonetic(hanzi)[place_of(syllables, index) + 1],
            },
        ),
{
    let pending = phonetic(hanzi);
    let place = place_of(syllables, index);
    hanzi.lemma_filter_pred(|c: char| is_chinese(c), place + 1);
    assert(syllables.take(index) + syllables.skip(index) =~= syllables);
    lemma_fitting_prefix(syllables.take(index), syllables.skip(index), pending);
}

/// An ordinary syllable that is no candidate of its character is a phonetic
/// mismatch that names the syllable and the character, wherever the
/// syllables before it fit. The error that reports it lists the candidate
/// set of that character.
pub proof fn phonetic_mismatch_is_reported(
    syllables: Seq<Seq<char>>,
    hanzi: Seq<char>,
    index: int,
)
    requires
        0 <= index < syllables.len(),
        first_fault(syllables.take(index), phonetic(hanzi)) is None,
        !is_erhua(syllables[index]),
        place_of(syllables, index) < phonetic(hanzi).len(),
        !candidates_of(phonetic(hanzi)[place_of(syllables, index)]).contains(
            syllables[index],
        ),
    ensures
        first_fault(syllables, phonetic(hanzi)) == Some(
            Fault::Phonetic {
                syllable: syllables[index],
                character: phonetic(hanzi)[place_of(syllables, index)],
            },
        ),
{
    let pending = phonetic(hanzi);
    assert(syllables.take(index) + syllables.skip(index) =~= syllables);
    lemma_fitting_prefix(syllables.take(index), syllables.skip(index), pending);
}

/// The characters of a syllable lie within those that all syllables take up.
proof fn lemma_place_within(syllables: Seq<Seq<char>>, index: int)
    requires
        0 <= index < syllables.len(),
    ensures
        0 <= place_of(syllables, index),
        place_of(syllables, index) + demand(syllables[index]) <= total_demand(syllables),
    decreases syllables.len(),
{
    if index > 0 {
        let rest = syllables.drop_first();
        assert(syllables.take(index).drop_first() =~= rest.take(index - 1));
        lemma_place_within(rest, index - 1);
    }
}

/// A transcription is verified exactly where the Chinese characters are
/// enough for its syllables and every syllable fits the characters at its
/// place: an ordinary syllable is a candidate of its character, and behind
/// the character of a syllable with an erhua suffix stands one that writes
/// the suffix.
pub proof fn verified_iff_every_syllable_fits(syllables: Seq<Seq<char>>, pending: Seq<char>)
    ensures
        first_fault(syllables, pending) is None <==> total_demand(syllables) <= pending.len()
            && every_syllable_fits(syllables, pending),
    decreases syllables.len(),
{
    if syllables.len() > 0 {
        let first = syllables[0];
        let rest = syllables.drop_first();
        let taken = demand(first) as int;
        if pending.len() >= taken {
            let left = pending.skip(taken);
            verified_iff_every_syllable_fits(rest, left);
            if total_demand(rest) <= left.len() {
                assert forall|index: int| 0 <= index < rest.len() implies fits_at(
                    rest,
                    left,
                    index,
                ) == fits_at(syllables, pending, index + 1) by {
                    lemma_place_within(rest, index);
                    assert(syllables.take(index + 1).drop_first() =~= rest.take(index));
                }
                if first_fault(syllables, pending) is None {
                    assert forall|index: int| 0 <= index < syllables.len() implies fits_at(
                        syllables,
                        pending,
                        index,
                    ) by {
                        if index > 0 {
                            assert(fits_at(rest, left, index - 1));
                        }
                    }
                }
                if every_syllable_fits(syllables, pending) {
                    assert(fits_at(syllables, pending, 0));
                    assert forall|index: int| 0 <= index < rest.len() implies fits_at(
                        rest,
                        left,
                        index,
                    ) by {
                        assert(fits_at(syllables, pending, index + 1));
                    }
                }
            }
        }
    }
}

/// The walk through the characters only moves forward: what a syllable
/// leaves of the Chinese characters is the end of what it found, and less
/// than it found wherever it found any.
pub proof fn the_walk_moves_forward(syllable: Seq<char>, pending: Seq<char>)
    ensures
        left_after(syllable, pending).len() <= pending.len(),
        pending.len() > 0 ==> left_after(syllable, pending).len() < pending.len(),
        left_after(syllable, pending) == pending.skip(
            pending.len() - left_after(syllable, pending).len(),
        ),
{
    assert(pending.skip(pending.len() as int) =~= Seq::empty());
}

/// The characters cannot run out where there are as many Chinese characters
/// as the syllables take up between them.
pub proof fn enough_characters_never_run_out(syllables: Seq<Seq<char>>, hanzi: Seq<char>)
    requires
        total_demand(syllables) <= phonetic(hanzi).len(),
    ensures
        !hanzi_runs_out(syllables, hanzi),
{
    lemma_enough_pending(syllables, phonetic(hanzi));
}

/// Chinese characters that are enough for all syllables do not run out.
proof fn lemma_enough_pending(syllables: Seq<Seq<char>>, pending: Seq<char>)
    requires
        total_demand(syllables) <= pending.len(),
    ensures
        !(first_fault(syllables, pending) matches Some(Fault::HanziRanOut { .. })),
    decreases syllables.len(),
{
    if syllables.len() > 0 && fault_of(syllables[0], pending) is None {
        lemma_enough_pending(syllables.drop_first(), left_after(syllables[0], pending));
    }
}

} // verus!
