//! The cursor that walks through the characters while the syllables come in.

use vstd::prelude::*;
use vstd::std_specs::iter::IteratorSpec;
use crate::alignment::{
    fault_of, left_after, lemma_phonetic_empty, lemma_phonetic_unfold, phonetic,
};
use crate::oracle::{candidates, candidates_of};
use crate::outcome::{MismatchError, Step};
use crate::syllable::{is_erhua_char, is_erhua_syllable};

verus! {

/// The characters of `text`, one by one.
pub fn chars_of(text: &str) -> (chars: Vec<char>)
    ensures
        chars@ == text@,
{
    broadcast use vstd::string::group_string_axioms;

    let mut chars: Vec<char> = Vec::new();
    for c in rest: text.chars()
        invariant
            rest.seq() == text@,
            chars@ == text@.take(rest.index() as int),
    {
        chars.push(c);
    }
    chars
}

/// Whether `syllable` is one of `candidates`.
pub fn admits(candidates: &Vec<String>, syllable: &str) -> (found: bool)
    ensures
        found == candidates.deep_view().contains(syllable@),
{
    let wanted = String::from_str(syllable);
    let mut i: usize = 0;
    while i < candidates.len()
        invariant
            i <= candidates.len(),
            wanted@ == syllable@,
            forall|k: int| 0 <= k < i ==> candidates[k]@ != syllable@,
        decreases candidates.len() - i,
    {
        if candidates[i] == wanted {
            assert(candidates.deep_view()[i as int] == syllable@);
            return true;
        }
        i = i + 1;
    }
    false
}

/// The state of one verification: the two texts, for the diagnostics, and
/// how far the walk through the characters has come. It only ever moves
/// forward.
pub struct Aligner<'a> {
    pinyin_text: &'a str,
    hanzi_text: &'a str,
    hanzi: Vec<char>,
    position: usize,
}

impl<'a> Aligner<'a> {
    #[verifier::type_invariant]
    spec fn well_formed(&self) -> bool {
        self.hanzi@ == self.hanzi_text@ && self.position <= self.hanzi.len()
    }

    /// The transcription that is being verified.
    pub closed spec fn pinyin_text(&self) -> Seq<char> {
        self.pinyin_text@
    }

    /// The characters that it is verified against.
    pub closed spec fn hanzi_text(&self) -> Seq<char> {
        self.hanzi_text@
    }

    /// The Chinese characters that no syllable has taken up yet.
    pub closed spec fn pending(&self) -> Seq<char> {
        phonetic(self.hanzi@.skip(self.position as int))
    }

    /// Starts at the first character of `hanzi_str`.
    pub fn new(pinyin_str: &'a str, hanzi_str: &'a str) -> (aligner: Aligner<'a>)
        ensures
            aligner.pinyin_text() == pinyin_str@,
            aligner.hanzi_text() == hanzi_str@,
            aligner.pending() == phonetic(hanzi_str@),
    {
        let hanzi = chars_of(hanzi_str);
        assert(hanzi@.skip(0) =~= hanzi@);
        Aligner { pinyin_text: pinyin_str, hanzi_text: hanzi_str, hanzi, position: 0 }
    }

    /// Moves past the next Chinese character and hands it out with its
    /// candidate set, skipping every other character on the way; `None`
    /// where no Chinese character is left.
    pub fn next_chinese(&mut self) -> (next: Option<(char, Vec<String>)>)
        ensures
            final(self).pinyin_text() == old(self).pinyin_text(),
            final(self).hanzi_text() == old(self).hanzi_text(),
            next is Some <==> old(self).pending().len() > 0,
            next matches Some((character, set)) ==> character == old(self).pending()[0]
                && set.deep_view() == candidates_of(character),
            final(self).pending() == (if old(self).pending().len() > 0 {
                old(self).pending().skip(1)
            } else {
                Seq::empty()
            }),
    {
        proof {
            use_type_invariant(&*self);
        }
        while self.position < self.hanzi.len()
            invariant
                self.hanzi@ == self.hanzi_text@,
                self.position <= self.hanzi.len(),
                self.pinyin_text == old(self).pinyin_text,
                self.hanzi_text == old(self).hanzi_text,
                self.hanzi == old(self).hanzi,
                self.pending() == old(self).pending(),
            decreases self.hanzi.len() - self.position,
        {
            let character = self.hanzi[self.position];
            proof {
                lemma_phonetic_unfold(self.hanzi@, self.position as int);
            }
            self.position = self.position + 1;
            if let Some(set) = candidates(character) {
                return Some((character, set));
            }
        }
        proof {
            lemma_phonetic_empty();
        }
        None
    }

    /// Holds one syllable against the characters that are pending. An
    /// ordinary syllable takes up the next Chinese character and has to be
    /// one of its candidates. A syllable with an erhua suffix takes up two:
    /// the first is passed over, the second has to write the suffix.
    pub fn step(&mut self, syllable: &str) -> (step: Step)
        ensures
            final(self).pinyin_text() == old(self).pinyin_text(),
            final(self).hanzi_text() == old(self).hanzi_text(),
            step.tells(
                fault_of(syllable@, old(self).pending()),
                old(self).pinyin_text(),
                old(self).hanzi_text(),
            ),
            final(self).pending() == left_after(syllable@, old(self).pending()),
    {
        let (character, set) = match self.next_chinese() {
            Some(found) => found,
            None => {
                return Step::HanziRanOut { expecting_erhua: false };
            },
        };
        if is_erhua_syllable(syllable) {
            match self.next_chinese() {
                None => Step::HanziRanOut { expecting_erhua: true },
                Some((suffix, _)) => {
                    if is_erhua_char(suffix) {
                        Step::Advanced
                    } else {
                        Step::Mismatch(
                            MismatchError::ErhuaMismatch {
                                syllable: String::from_str(syllable),
                                character: suffix,
                            },
                        )
                    }
                },
            }
        } else if admits(&set, syllable) {
            Step::Advanced
        } else {
            Step::Mismatch(
                MismatchError::PhoneticMismatch {
                    syllable: String::from_str(syllable),
                    candidates: set,
                    character,
                    pinyin_text: String::from_str(self.pinyin_text),
                    hanzi_text: String::from_str(self.hanzi_text),
                },
            )
        }
    }
}

} // verus!
