use phoneme_kana::{LoadError, MissingEntry, Pronunciation};
use wana_kana::ConvertJapanese;

fn lines(text: &[&str]) -> Vec<String> {
    text.iter().map(|s| s.to_string()).collect()
}

fn load(text: &[&str]) -> Pronunciation {
    Pronunciation::new(&lines(text)).unwrap()
}

fn strings(symbols: &[&str]) -> Vec<String> {
    symbols.iter().map(|s| s.to_string()).collect()
}

#[test]
fn hello_line_loads_its_phonemes() {
    let p = load(&["HELLO HH AH L OW"]);
    assert_eq!(p.pronunciation_of("HELLO"), Some(&strings(&["HH", "AH", "L", "OW"])));
    assert_eq!(p.pronunciation_of("hello"), None);
    assert_eq!(p.pronunciation_of("HH"), None);
}

#[test]
fn empty_text_loads_an_empty_dictionary() {
    let p = load(&[]);
    assert_eq!(p.pronunciation_of("HELLO"), None);
    assert!(p.pronunciation_map.is_empty());
}

#[test]
fn white_space_between_words_is_of_any_kind_and_length() {
    let p = load(&["  CAT\tK   AE\u{3000}T  "]);
    assert_eq!(p.pronunciation_of("CAT"), Some(&strings(&["K", "AE", "T"])));
}

#[test]
fn later_line_replaces_earlier_one() {
    let p = load(&["READ R EH D", "LEAD L IY D", "READ R IY D"]);
    assert_eq!(p.pronunciation_of("READ"), Some(&strings(&["R", "IY", "D"])));
    assert_eq!(p.pronunciation_of("LEAD"), Some(&strings(&["L", "IY", "D"])));
    assert_eq!(p.pronunciation_map.len(), 2);
}

#[test]
fn word_without_phonemes_loads_with_none() {
    let p = load(&["HM"]);
    assert_eq!(p.pronunciation_of("HM"), Some(&Vec::new()));
    assert_eq!(p.get_kana("hm".to_string()), Ok(String::new()));
}

#[test]
fn blank_line_is_a_load_error() {
    let r = Pronunciation::new(&lines(&["A AH", "", "B B"]));
    assert_eq!(r.err(), Some(LoadError::MalformedLine { index: 1 }));
}

#[test]
fn line_of_white_space_is_a_load_error() {
    let r = Pronunciation::new(&lines(&[" \t\u{a0} ", ""]));
    assert_eq!(r.err(), Some(LoadError::MalformedLine { index: 0 }));
}

#[test]
fn symbols_outside_the_alphabet_load_and_fail_only_when_converted() {
    let p = load(&["ABOUT AH0 B AW1 T"]);
    assert_eq!(p.pronunciation_of("ABOUT"), Some(&strings(&["AH0", "B", "AW1", "T"])));
    assert_eq!(
        p.get_kana("about".to_string()),
        Err(MissingEntry { outer: "AH0".to_string(), inner: None })
    );
}

#[test]
fn dictionary_word_is_rendered_from_its_phonemes() {
    let p = load(&["HELLO HH AH L OW", "CAT K AE T"]);
    assert_eq!(p.get_kana("HELLO".to_string()), Ok("ハロー".to_string()));
    assert_eq!(p.get_kana("CAT".to_string()), Ok("カト".to_string()));
}

#[test]
fn word_is_looked_up_in_upper_case() {
    let p = load(&["HELLO HH AH L OW", "STRASSE S T R AA S"]);
    assert_eq!(p.get_kana("hello".to_string()), Ok("ハロー".to_string()));
    assert_eq!(p.get_kana("Hello".to_string()), Ok("ハロー".to_string()));
    // the upper-case form of a letter may be longer than the letter
    assert_eq!(p.get_kana("straße".to_string()), Ok("ストラス".to_string()));
}

#[test]
fn dictionary_word_gives_the_same_kana_on_every_call() {
    let p = load(&["WORLD W ER L D"]);
    let first = p.get_kana("world".to_string());
    assert_eq!(first, Ok("ウィルド".to_string()));
    for _ in 0..3 {
        assert_eq!(p.get_kana("world".to_string()), first);
    }
}

#[test]
fn lookup_kana_tells_a_miss_from_a_failed_conversion() {
    let p = load(&["CAT K AE T", "ODD AE IY"]);
    assert_eq!(p.lookup_kana("CAT"), Some(Ok("カト".to_string())));
    assert_eq!(p.lookup_kana("cat"), None);
    assert_eq!(
        p.lookup_kana("ODD"),
        Some(Err(MissingEntry { outer: "AE".to_string(), inner: Some("IY".to_string()) }))
    );
}

#[test]
fn phoneme_to_kana_does_not_depend_on_the_dictionary() {
    let empty = load(&[]);
    let full = load(&["CAT K IH T"]);
    let cat = strings(&["K", "AE", "T"]);
    assert_eq!(empty.phoneme_to_kana(&cat), Ok("カト".to_string()));
    assert_eq!(full.phoneme_to_kana(&cat), Ok("カト".to_string()));
}

#[test]
fn unknown_word_is_rendered_by_its_spelling() {
    let p = load(&["HELLO HH AH L OW"]);
    let word = "UNKNOWNWORD123";
    let expected = word.to_kana().to_katakana();
    assert_ne!(expected, word);
    assert_eq!(p.get_kana(word.to_string()), Ok(expected));
}

#[test]
fn spelling_in_lower_case_ends_in_katakana() {
    let p = load(&[]);
    assert_eq!(p.get_kana("sushi".to_string()), Ok("スシ".to_string()));
    assert_eq!(p.get_kana("SUSHI".to_string()), Ok("スシ".to_string()));
}

#[test]
fn spelling_beside_kanji_is_still_converted() {
    let p = load(&[]);
    assert_eq!(p.get_kana("座禅zazen".to_string()), Ok("座禅ザゼン".to_string()));
}

#[test]
fn empty_word_is_rendered_as_nothing() {
    let p = load(&["HELLO HH AH L OW"]);
    assert_eq!(p.get_kana(String::new()), Ok(String::new()));
}
