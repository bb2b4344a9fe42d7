use match_pinyin_with_hanzi::message::{erhua_sentence, exhaustion_message, phonetic_sentence};
use match_pinyin_with_hanzi::outcome::MismatchError;
use match_pinyin_with_hanzi::try_match_pinyin_with_hanzi;

#[test]
fn phonetic_mismatch_is_written_out() {
    let error = try_match_pinyin_with_hanzi("Mǎ!", &vec!["mǎ".to_string()], "你！")
        .unwrap()
        .unwrap_err();
    assert_eq!(
        error.message(),
        "mǎ not found within candidates [\"nǐ\", \"ni\"] possible for the Chinese character 你. \
         Encountered this while matching `Mǎ!` with `你！`."
    );
}

#[test]
fn erhua_mismatch_is_written_out() {
    let error = try_match_pinyin_with_hanzi("diǎnr", &vec!["diǎnr".to_string()], "点好")
        .unwrap()
        .unwrap_err();
    assert_eq!(
        error.message(),
        "expected 儿 or 兒 because of the rhotic pinyin diǎnr, but instead found a Chinese \
         character 好"
    );
}

#[test]
fn candidates_are_written_as_a_quoted_list() {
    let error = MismatchError::PhoneticMismatch {
        syllable: "a".to_string(),
        candidates: vec!["q\"uote".to_string(), "back\\slash".to_string(), String::new()],
        character: '一',
        pinyin_text: String::new(),
        hanzi_text: String::new(),
    };
    assert_eq!(
        error.message(),
        "a not found within candidates [\"q\\\"uote\", \"back\\\\slash\", \"\"] possible for the \
         Chinese character 一. Encountered this while matching `` with ``."
    );
    let none = MismatchError::PhoneticMismatch {
        syllable: String::new(),
        candidates: Vec::new(),
        character: 'x',
        pinyin_text: "p".to_string(),
        hanzi_text: "h".to_string(),
    };
    assert_eq!(
        none.message(),
        " not found within candidates [] possible for the Chinese character x. \
         Encountered this while matching `p` with `h`."
    );
}

#[test]
fn exhaustion_is_written_out() {
    assert_eq!(
        exhaustion_message(false, "nǐ hǎo", "你"),
        "hanzi ran out, while matching `nǐ hǎo` with `你`"
    );
    assert_eq!(
        exhaustion_message(true, "diǎnr", "点"),
        "hanzi ran out, expected 儿 or 兒, while matching `diǎnr` with `点`"
    );
}

#[test]
fn sentences_are_put_together_from_their_parts() {
    assert_eq!(
        phonetic_sentence("S", "[L]", 'C', "P", "H"),
        "S not found within candidates [L] possible for the Chinese character C. \
         Encountered this while matching `P` with `H`."
    );
    assert_eq!(
        phonetic_sentence("", "", '字', "", ""),
        " not found within candidates  possible for the Chinese character 字. \
         Encountered this while matching `` with ``."
    );
    assert_eq!(
        erhua_sentence("S", 'C'),
        "expected 儿 or 兒 because of the rhotic pinyin S, but instead found a Chinese \
         character C"
    );
}
