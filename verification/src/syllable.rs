//! How a single syllable is classified: as an ordinary syllable, which is
//! matched against one character, or as one that carries an erhua suffix.

use vstd::prelude::*;

verus! {

/// The syllables that end in "r" in their own right: "er" in each of its tones.
pub open spec fn is_genuine_er(syllable: Seq<char>) -> bool {
    ||| syllable == "er"@
    ||| syllable == "ēr"@
    ||| syllable == "ér"@
    ||| syllable == "ěr"@
    ||| syllable == "èr"@
}

/// A syllable carries an erhua suffix where it ends in "r" and is none of the
/// genuine "er" syllables.
pub open spec fn is_erhua(syllable: Seq<char>) -> bool {
    syllable.len() > 0 && syllable.last() == 'r' && !is_genuine_er(syllable)
}

/// The two characters that write the erhua suffix.
pub open spec fn is_erhua_character(c: char) -> bool {
    c == '儿' || c == '兒'
}

/// The letter "e", bare or under one of the four tone marks.
pub open spec fn is_e(c: char) -> bool {
    c == 'e' || c == 'ē' || c == 'é' || c == 'ě' || c == 'è'
}

/// Spells the genuine "er" syllables out: an "e", in any tone, and an "r".
pub proof fn lemma_genuine_er_spelled(syllable: Seq<char>)
    ensures
        is_genuine_er(syllable) <==> syllable.len() == 2 && is_e(syllable[0]) && syllable[1]
            == 'r',
{
    reveal_strlit("er");
    reveal_strlit("ēr");
    reveal_strlit("ér");
    reveal_strlit("ěr");
    reveal_strlit("èr");
    if syllable.len() == 2 && syllable[1] == 'r' {
        if syllable[0] == 'e' {
            assert(syllable =~= "er"@);
        } else if syllable[0] == 'ē' {
            assert(syllable =~= "ēr"@);
        } else if syllable[0] == 'é' {
            assert(syllable =~= "ér"@);
        } else if syllable[0] == 'ě' {
            assert(syllable =~= "ěr"@);
        } else if syllable[0] == 'è' {
            assert(syllable =~= "èr"@);
        }
    }
}

/// Whether `syllable` is one of the genuine "er" syllables.
pub fn is_genuine_er_syllable(syllable: &str) -> (b: bool)
    ensures
        b == is_genuine_er(syllable@),
{
    proof {
        lemma_genuine_er_spelled(syllable@);
    }
    if syllable.unicode_len() != 2 {
        return false;
    }
    let first = syllable.get_char(0);
    let second = syllable.get_char(1);
    second == 'r' && (first == 'e' || first == 'ē' || first == 'é' || first == 'ě' || first
        == 'è')
}

/// Whether `syllable` carries an erhua suffix.
pub fn is_erhua_syllable(syllable: &str) -> (b: bool)
    ensures
        b == is_erhua(syllable@),
{
    let n = syllable.unicode_len();
    if n == 0 {
        return false;
    }
    syllable.get_char(n - 1) == 'r' && !is_genuine_er_syllable(syllable)
}

/// Whether `c` writes the erhua suffix.
pub fn is_erhua_char(c: char) -> (b: bool)
    ensures
        b == is_erhua_character(c),
{
    c == '儿' || c == '兒'
}

} // verus!
