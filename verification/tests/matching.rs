use match_pinyin_with_hanzi::hanzi_suffices;
use match_pinyin_with_hanzi::match_pinyin_with_hanzi;
use match_pinyin_with_hanzi::outcome::MismatchError;
use match_pinyin_with_hanzi::try_match_pinyin_with_hanzi;
use pinyin_parser::{PinyinParser, Strictness};

fn syllables_of(pinyin: &str) -> Vec<String> {
    PinyinParser::new()
        .with_strictness(Strictness::StrictAndSeparateApostropheFromCurlyQuote)
        .parse(pinyin)
        .collect()
}

fn strings(items: &[&str]) -> Vec<String> {
    items.iter().map(|s| s.to_string()).collect()
}

const ERHUA_PINYIN: &str = "Jiù wèi zhème yīdiǎnr shìr shēngqì, zhídàng de ma?";

#[test]
fn it_works() {
    let pinyin = "Nǐ qù nǎli?";
    match_pinyin_with_hanzi(pinyin, &syllables_of(pinyin), "你去哪里？").unwrap();
}

#[test]
fn toned_and_light_tone_candidates_both_match() {
    let pinyin = "māmā qí mǎ, mǎ màn, māma mà mǎ.";
    let syllables = syllables_of(pinyin);
    assert_eq!(
        syllables,
        strings(&["mā", "mā", "qí", "mǎ", "mǎ", "màn", "mā", "ma", "mà", "mǎ"])
    );
    let hanzi = "妈妈骑马，马慢，妈妈骂马。";
    assert!(hanzi_suffices(&syllables, hanzi));
    assert_eq!(match_pinyin_with_hanzi(pinyin, &syllables, hanzi), Ok(()));
    assert_eq!(
        try_match_pinyin_with_hanzi(pinyin, &syllables, hanzi),
        Some(Ok(()))
    );
}

#[test]
fn erhua_takes_up_two_characters() {
    let syllables = syllables_of(ERHUA_PINYIN);
    assert_eq!(
        syllables,
        strings(&[
            "jiù", "wèi", "zhè", "me", "yī", "diǎnr", "shìr", "shēng", "qì", "zhí", "dàng",
            "de", "ma"
        ])
    );
    let hanzi = "就為這麼一點兒事兒生氣，值當的嗎？";
    assert!(hanzi_suffices(&syllables, hanzi));
    assert_eq!(match_pinyin_with_hanzi(ERHUA_PINYIN, &syllables, hanzi), Ok(()));
}

#[test]
fn erhua_is_written_with_either_character() {
    let syllables = strings(&["diǎnr", "diǎnr"]);
    assert_eq!(
        try_match_pinyin_with_hanzi("diǎnr diǎnr", &syllables, "点儿點兒"),
        Some(Ok(()))
    );
}

#[test]
fn erhua_violation_names_syllable_and_character() {
    let syllables = syllables_of(ERHUA_PINYIN);
    let hanzi = "就為這麼一點好事兒生氣，值當的嗎？";
    assert!(hanzi_suffices(&syllables, hanzi));
    let expected = MismatchError::ErhuaMismatch {
        syllable: "diǎnr".to_string(),
        character: '好',
    };
    assert_eq!(
        match_pinyin_with_hanzi(ERHUA_PINYIN, &syllables, hanzi),
        Err(expected)
    );
}

#[test]
fn second_erhua_violation_is_found_after_the_first_fits() {
    let syllables = syllables_of(ERHUA_PINYIN);
    let hanzi = "就為這麼一點兒事情生氣，值當的嗎？";
    assert_eq!(
        try_match_pinyin_with_hanzi(ERHUA_PINYIN, &syllables, hanzi),
        Some(Err(MismatchError::ErhuaMismatch {
            syllable: "shìr".to_string(),
            character: '情',
        }))
    );
}

#[test]
fn erhua_base_character_is_not_held_against_the_syllable() {
    // The character before the suffix is passed over, whatever it is.
    assert_eq!(
        try_match_pinyin_with_hanzi("diǎnr", &strings(&["diǎnr"]), "好儿"),
        Some(Ok(()))
    );
}

#[test]
fn phonetic_mismatch_lists_the_candidate_set() {
    let result = try_match_pinyin_with_hanzi("mǎ", &strings(&["mǎ"]), "你");
    assert_eq!(
        result,
        Some(Err(MismatchError::PhoneticMismatch {
            syllable: "mǎ".to_string(),
            candidates: strings(&["nǐ", "ni"]),
            character: '你',
            pinyin_text: "mǎ".to_string(),
            hanzi_text: "你".to_string(),
        }))
    );
}

#[test]
fn phonetic_mismatch_carries_both_texts() {
    let pinyin = "Nǐ hǎo!";
    let hanzi = "你，们！";
    let result = match_pinyin_with_hanzi(pinyin, &syllables_of(pinyin), hanzi);
    assert_eq!(
        result,
        Err(MismatchError::PhoneticMismatch {
            syllable: "hǎo".to_string(),
            candidates: strings(&["men", "men", "mén", "men"]),
            character: '们',
            pinyin_text: pinyin.to_string(),
            hanzi_text: hanzi.to_string(),
        })
    );
}

#[test]
fn a_capital_letter_makes_another_syllable() {
    // The tokenizer hands out small letters only; the candidates hold no others.
    assert!(matches!(
        try_match_pinyin_with_hanzi("Nǐ", &strings(&["Nǐ"]), "你"),
        Some(Err(MismatchError::PhoneticMismatch { .. }))
    ));
}

#[test]
fn punctuation_and_whitespace_in_hanzi_change_nothing() {
    let pinyin = "Nǐ qù nǎli?";
    let syllables = syllables_of(pinyin);
    let hanzi: Vec<char> = "你去哪里？".chars().collect();
    for at in 0..=hanzi.len() {
        for inserted in [",", " ", "!?", "\t\n", "a1", ". . ."] {
            let mut text: String = hanzi[..at].iter().collect();
            text.push_str(inserted);
            text.extend(hanzi[at..].iter());
            assert_eq!(
                try_match_pinyin_with_hanzi(pinyin, &syllables, &text),
                Some(Ok(())),
                "with {inserted:?} at {at}"
            );
        }
    }
}

#[test]
fn punctuation_in_hanzi_leaves_a_mismatch_as_it_is() {
    let syllables = syllables_of(ERHUA_PINYIN);
    let plain = "就為這麼一點好事兒生氣值當的嗎";
    let spaced = " 就, 為. 這 麼! 一 ...點 - 好 ? 事 兒 生 氣 值 當 的 嗎 ";
    let expected = Some(Err(MismatchError::ErhuaMismatch {
        syllable: "diǎnr".to_string(),
        character: '好',
    }));
    assert_eq!(
        try_match_pinyin_with_hanzi(ERHUA_PINYIN, &syllables, plain),
        expected
    );
    assert_eq!(
        try_match_pinyin_with_hanzi(ERHUA_PINYIN, &syllables, spaced),
        expected
    );
}

#[test]
fn genuine_er_is_matched_against_its_own_character() {
    assert_eq!(
        try_match_pinyin_with_hanzi("èr", &strings(&["èr"]), "二"),
        Some(Ok(()))
    );
    assert_eq!(
        try_match_pinyin_with_hanzi("ěr", &strings(&["ěr"]), "耳"),
        Some(Ok(()))
    );
    assert_eq!(
        try_match_pinyin_with_hanzi("ér", &strings(&["ér"]), "而"),
        Some(Ok(()))
    );
    assert_eq!(
        try_match_pinyin_with_hanzi("er", &strings(&["er"]), "二"),
        Some(Ok(()))
    );
    assert_eq!(
        try_match_pinyin_with_hanzi("érzi", &syllables_of("érzi"), "儿子"),
        Some(Ok(()))
    );
}

#[test]
fn genuine_er_takes_up_one_character_only() {
    // As an erhua suffix "èr" would pass over 二 and accept 儿; it does
    // neither, and the next syllable is held against 儿.
    assert_eq!(
        try_match_pinyin_with_hanzi("èr ér", &strings(&["èr", "ér"]), "二儿"),
        Some(Ok(()))
    );
    assert_eq!(
        try_match_pinyin_with_hanzi("ēr", &strings(&["ēr"]), "二儿"),
        Some(Err(MismatchError::PhoneticMismatch {
            syllable: "ēr".to_string(),
            candidates: strings(&["èr", "er"]),
            character: '二',
            pinyin_text: "ēr".to_string(),
            hanzi_text: "二儿".to_string(),
        }))
    );
}

#[test]
fn trailing_hanzi_is_allowed() {
    let pinyin = "Nǐ qù nǎli?";
    let syllables = syllables_of(pinyin);
    assert_eq!(
        match_pinyin_with_hanzi(pinyin, &syllables, "你去哪里？你好吗"),
        Ok(())
    );
    assert_eq!(
        try_match_pinyin_with_hanzi(pinyin, &syllables, "你去哪里儿兒, abc 马"),
        Some(Ok(()))
    );
}

#[test]
fn no_syllables_match_any_hanzi() {
    let none: Vec<String> = Vec::new();
    assert!(hanzi_suffices(&none, ""));
    assert_eq!(match_pinyin_with_hanzi("", &none, ""), Ok(()));
    assert_eq!(match_pinyin_with_hanzi("?!", &none, "你好"), Ok(()));
    assert_eq!(try_match_pinyin_with_hanzi("", &none, "，。"), Some(Ok(())));
}

#[test]
fn hanzi_that_runs_out_is_told_apart_from_a_mismatch() {
    let syllables = strings(&["nǐ", "hǎo"]);
    assert!(!hanzi_suffices(&syllables, "你"));
    assert_eq!(try_match_pinyin_with_hanzi("nǐ hǎo", &syllables, "你"), None);
    assert_eq!(try_match_pinyin_with_hanzi("nǐ hǎo", &syllables, "你，。 "), None);
    assert_eq!(try_match_pinyin_with_hanzi("nǐ hǎo", &syllables, ""), None);
    assert!(hanzi_suffices(&syllables, "你好"));
}

#[test]
fn hanzi_that_runs_out_behind_an_erhua_syllable() {
    let syllables = strings(&["diǎnr"]);
    assert!(!hanzi_suffices(&syllables, "点"));
    assert_eq!(try_match_pinyin_with_hanzi("diǎnr", &syllables, "点。"), None);
    assert!(hanzi_suffices(&syllables, "点儿"));
}

#[test]
fn a_mismatch_that_comes_first_hides_that_hanzi_would_run_out() {
    let syllables = strings(&["mǎ", "hǎo"]);
    assert!(hanzi_suffices(&syllables, "你"));
    assert_eq!(
        match_pinyin_with_hanzi("mǎ hǎo", &syllables, "你"),
        Err(MismatchError::PhoneticMismatch {
            syllable: "mǎ".to_string(),
            candidates: strings(&["nǐ", "ni"]),
            character: '你',
            pinyin_text: "mǎ hǎo".to_string(),
            hanzi_text: "你".to_string(),
        })
    );
}
