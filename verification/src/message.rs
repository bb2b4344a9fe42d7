//! The sentences in which a mismatch, or characters that ran out, are told
//! to a reader.

use vstd::prelude::*;

verus! {

/// The text that `{:?}` writes for a list of strings: the items between
/// square brackets, separated by a comma and a space, each between double
/// quotes and with its special characters escaped.
pub uninterp spec fn debug_text(items: Seq<Seq<char>>) -> Seq<char>;

/// Formats `items` with `format!("{:?}", ..)`. Trusted: the result is what
/// `debug_text` names for them.
#[verifier::external_body]
pub(crate) fn debug_of(items: &Vec<String>) -> (text: String)
    ensures
        text@ == debug_text(items.deep_view()),
{
    format!("{:?}", items)
}

/// Appends `c` with `String::push`. Trusted: the text is the one before,
/// with `c` behind it.
#[verifier::external_body]
pub(crate) fn push_char(text: &mut String, c: char)
    ensures
        final(text)@ == old(text)@.push(c),
{
    text.push(c)
}

/// The sentence on a syllable that is none of the candidates of its
/// character; `listed` is the candidate set as it is to be shown.
pub open spec fn phonetic_text(
    syllable: Seq<char>,
    listed: Seq<char>,
    character: char,
    pinyin_text: Seq<char>,
    hanzi_text: Seq<char>,
) -> Seq<char> {
    (syllable + " not found within candidates "@ + listed
        + " possible for the Chinese character "@).push(character)
        + ". Encountered this while matching `"@ + pinyin_text + "` with `"@ + hanzi_text
        + "`."@
}

/// Writes the sentence on a syllable that is none of the candidates of its
/// character.
pub fn phonetic_sentence(
    syllable: &str,
    listed: &str,
    character: char,
    pinyin_text: &str,
    hanzi_text: &str,
) -> (text: String)
    ensures
        text@ == phonetic_text(syllable@, listed@, character, pinyin_text@, hanzi_text@),
{
    let mut text = String::from_str(syllable);
    text.append(" not found within candidates ");
    text.append(listed);
    text.append(" possible for the Chinese character ");
    push_char(&mut text, character);
    text.append(". Encountered this while matching `");
    text.append(pinyin_text);
    text.append("` with `");
    text.append(hanzi_text);
    text.append("`.");
    text
}

/// The sentence on a syllable with an erhua suffix that is followed by
/// `character`, which does not write the suffix.
pub open spec fn erhua_text(syllable: Seq<char>, character: char) -> Seq<char> {
    ("expected 儿 or 兒 because of the rhotic pinyin "@ + syllable
        + ", but instead found a Chinese character "@).push(character)
}

/// Writes the sentence on a syllable whose erhua suffix is not written.
pub fn erhua_sentence(syllable: &str, character: char) -> (text: String)
    ensures
        text@ == erhua_text(syllable@, character),
{
    let mut text = String::from_str("expected 儿 or 兒 because of the rhotic pinyin ");
    text.append(syllable);
    text.append(", but instead found a Chinese character ");
    push_char(&mut text, character);
    text
}

/// The sentence on Chinese characters that ran out while the two texts were
/// matched: for a syllable, or, with `expecting_erhua`, for its erhua
/// suffix.
pub open spec fn exhaustion_text(
    expecting_erhua: bool,
    pinyin_text: Seq<char>,
    hanzi_text: Seq<char>,
) -> Seq<char> {
    (if expecting_erhua {
        "hanzi ran out, expected 儿 or 兒, while matching `"@
    } else {
        "hanzi ran out, while matching `"@
    }) + pinyin_text + "` with `"@ + hanzi_text + "`"@
}

/// Writes the sentence on Chinese characters that ran out.
pub fn exhaustion_message(expecting_erhua: bool, pinyin_str: &str, hanzi_str: &str) -> (text:
    String)
    ensures
        text@ == exhaustion_text(expecting_erhua, pinyin_str@, hanzi_str@),
{
    let mut text = if expecting_erhua {
        String::from_str("hanzi ran out, expected 儿 or 兒, while matching `")
    } else {
        String::from_str("hanzi ran out, while matching `")
    };
    text.append(pinyin_str);
    text.append("` with `");
    text.append(hanzi_str);
    text.append("`");
    text
}

} // verus!
