//! The pronunciation oracle: which readings the dictionary records for a
//! single character, and the candidate set that a syllable is matched against.

use vstd::prelude::*;
use pinyin::ToPinyinMulti;

verus! {

/// One reading of a character, in the two forms in which it may be written:
/// with its tone mark, and plain, with the mark stripped.
#[derive(Debug, PartialEq, Eq)]
pub struct Reading {
    pub with_tone: String,
    pub plain: String,
}

impl View for Reading {
    type V = (Seq<char>, Seq<char>);

    open spec fn view(&self) -> (Seq<char>, Seq<char>) {
        (self.with_tone@, self.plain@)
    }
}

impl DeepView for Reading {
    type V = (Seq<char>, Seq<char>);

    open spec fn deep_view(&self) -> (Seq<char>, Seq<char>) {
        self@
    }
}

/// The readings that the dictionary records for `c`, in the dictionary's
/// order, each as the pair of its tone-marked and its plain form; `None`
/// where the dictionary does not know `c` as a Chinese character.
pub uninterp spec fn readings_of(c: char) -> Option<Seq<(Seq<char>, Seq<char>)>>;

/// Whether the dictionary knows `c` as a Chinese character.
pub open spec fn is_chinese(c: char) -> bool {
    readings_of(c) is Some
}

/// The candidate set made of `readings`: for each reading in turn its
/// tone-marked form, then its plain form.
pub open spec fn interleave(readings: Seq<(Seq<char>, Seq<char>)>) -> Seq<Seq<char>> {
    Seq::new(
        2 * readings.len(),
        |i: int|
            if i % 2 == 0 {
                readings[i / 2].0
            } else {
                readings[i / 2].1
            },
    )
}

/// The candidate set of `c`: every way in which a syllable for `c` may be
/// written. Empty where `c` is no Chinese character.
pub open spec fn candidates_of(c: char) -> Seq<Seq<char>> {
    match readings_of(c) {
        Some(readings) => interleave(readings),
        None => Seq::empty(),
    }
}

/// Looks `c` up in the dictionary of the `pinyin` crate
/// (`ToPinyinMulti::to_pinyin_multi` on a `char`) and copies each reading out
/// through `Pinyin::with_tone` and `Pinyin::plain`, in the order in which
/// `PinyinMulti` hands them out. Trusted: the result is what `readings_of`
/// names for `c`, and a character that is found has at least one reading.
#[verifier::external_body]
pub(crate) fn lookup_readings(c: char) -> (found: Option<Vec<Reading>>)
    ensures
        found.deep_view() == readings_of(c),
        found matches Some(list) ==> list.len() >= 1,
{
    c.to_pinyin_multi().map(|multi| {
        multi.into_iter().map(|p| Reading {
            with_tone: p.with_tone().to_string(),
            plain: p.plain().to_string(),
        }).collect()
    })
}

/// Builds the candidate set from the readings of one character.
pub fn candidate_set(readings: &Vec<Reading>) -> (set: Vec<String>)
    ensures
        set.deep_view() == interleave(readings.deep_view()),
{
    let mut set: Vec<String> = Vec::new();
    let mut i: usize = 0;
    while i < readings.len()
        invariant
            i <= readings.len(),
            set.len() == 2 * i,
            forall|k: int| 0 <= k < i ==> #[trigger] set[2 * k]@ == readings[k].with_tone@,
            forall|k: int| 0 <= k < i ==> #[trigger] set[2 * k + 1]@ == readings[k].plain@,
        decreases readings.len() - i,
    {
        set.push(readings[i].with_tone.clone());
        set.push(readings[i].plain.clone());
        i = i + 1;
    }
    proof {
        let built = set.deep_view();
        let wanted = interleave(readings.deep_view());
        assert forall|j: int| 0 <= j < built.len() implies built[j] == wanted[j] by {
            let k = j / 2;
            if j % 2 == 0 {
                assert(set[2 * k]@ == readings[k].with_tone@);
            } else {
                assert(set[2 * k + 1]@ == readings[k].plain@);
            }
        }
    }
    set
}

/// The candidate set of `c`, or `None` where `c` is no Chinese character.
pub fn candidates(c: char) -> (found: Option<Vec<String>>)
    ensures
        found is Some <==> is_chinese(c),
        found matches Some(set) ==> set.deep_view() == candidates_of(c) && set.len() >= 2,
{
    match lookup_readings(c) {
        Some(readings) => {
            let set = candidate_set(&readings);
            assert(set.deep_view().len() == set.len());
            Some(set)
        },
        None => None,
    }
}

} // verus!
