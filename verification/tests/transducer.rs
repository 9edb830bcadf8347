use phoneme_kana::transducer::{is_vowel_str, lookup_symbols};
use phoneme_kana::{convert, MissingEntry};

fn phonemes(symbols: &[&str]) -> Vec<String> {
    symbols.iter().map(|s| s.to_string()).collect()
}

fn kana(symbols: &[&str]) -> Result<String, MissingEntry> {
    convert(&phonemes(symbols))
}

#[test]
fn cat_is_rendered_from_a_pair_and_a_single() {
    assert_eq!(kana(&["K", "AE", "T"]), Ok("カト".to_string()));
}

#[test]
fn empty_pronunciation_gives_empty_kana() {
    assert_eq!(kana(&[]), Ok(String::new()));
}

#[test]
fn hello_holds_back_both_consonants() {
    assert_eq!(kana(&["HH", "AH", "L", "OW"]), Ok("ハロー".to_string()));
}

#[test]
fn single_consonant_stands_alone() {
    assert_eq!(kana(&["K"]), Ok("ク".to_string()));
    assert_eq!(kana(&["N"]), Ok("ン".to_string()));
    assert_eq!(kana(&["R"]), Ok("ー".to_string()));
}

#[test]
fn single_vowel_uses_the_row_that_replaced_the_earlier_one() {
    assert_eq!(kana(&["AA"]), Ok("アー".to_string()));
    assert_eq!(kana(&["OW"]), Ok("オー".to_string()));
    assert_eq!(kana(&["EY"]), Ok("エイ".to_string()));
    assert_eq!(kana(&["AW"]), Ok("オウ".to_string()));
}

#[test]
fn consonants_in_a_row_are_each_rendered_alone() {
    assert_eq!(kana(&["S", "T", "R"]), Ok("ストー".to_string()));
}

#[test]
fn vowel_after_a_pair_is_rendered_alone() {
    assert_eq!(kana(&["K", "AY", "AH"]), Ok("カイア".to_string()));
}

#[test]
fn two_vowels_are_rendered_as_a_pair() {
    assert_eq!(kana(&["AY", "AH"]), Ok("アイア".to_string()));
    assert_eq!(kana(&["IY", "ER"]), Ok("アイヤー".to_string()));
}

#[test]
fn vowel_run_pairs_up_from_the_left() {
    // K+AE, then IY is held back for AH, then T alone.
    assert_eq!(kana(&["K", "AE", "IY", "AH", "T"]), Ok("カイアト".to_string()));
}

#[test]
fn longest_fragments_are_copied_whole() {
    assert_eq!(kana(&["AH", "OW"]), Ok("アッアウ".to_string()));
    assert_eq!(kana(&["OW", "EY"]), Ok("オウエイ".to_string()));
    assert_eq!(kana(&["EY", "AA"]), Ok("エイアー".to_string()));
}

#[test]
fn missing_vowel_pair_is_reported() {
    assert_eq!(
        kana(&["AE", "IY"]),
        Err(MissingEntry { outer: "AE".to_string(), inner: Some("IY".to_string()) })
    );
}

#[test]
fn unknown_symbol_alone_is_reported() {
    assert_eq!(kana(&["XX"]), Err(MissingEntry { outer: "XX".to_string(), inner: None }));
    assert_eq!(kana(&["k"]), Err(MissingEntry { outer: "k".to_string(), inner: None }));
    assert_eq!(kana(&["AE1"]), Err(MissingEntry { outer: "AE1".to_string(), inner: None }));
}

#[test]
fn unknown_symbol_before_a_vowel_is_reported_with_the_vowel() {
    assert_eq!(
        kana(&["XX", "AE"]),
        Err(MissingEntry { outer: "XX".to_string(), inner: Some("AE".to_string()) })
    );
}

#[test]
fn empty_symbol_is_not_passed_over() {
    assert_eq!(kana(&[""]), Err(MissingEntry { outer: String::new(), inner: None }));
    assert_eq!(
        kana(&["", "AE"]),
        Err(MissingEntry { outer: String::new(), inner: Some("AE".to_string()) })
    );
}

#[test]
fn first_missing_key_is_the_one_reported() {
    assert_eq!(
        kana(&["K", "AE", "QQ", "T", "ZZ"]),
        Err(MissingEntry { outer: "QQ".to_string(), inner: None })
    );
}

#[test]
fn conversion_is_repeatable() {
    let p = phonemes(&["W", "ER", "L", "D"]);
    let first = convert(&p);
    assert_eq!(first, Ok("ウィルド".to_string()));
    assert_eq!(convert(&p), first);
}

#[test]
fn consonant_before_vowel_is_never_rendered_alone() {
    // T alone is "ト"; before IY it must give "ティ" and nothing else.
    assert_eq!(kana(&["T", "IY"]), Ok("ティ".to_string()));
    assert_eq!(kana(&["T"]), Ok("ト".to_string()));
    assert_eq!(kana(&["IY"]), Ok("イー".to_string()));
}

#[test]
fn last_phoneme_alone_uses_its_own_row() {
    assert_eq!(kana(&["AE", "T"]), Ok("アト".to_string()));
    assert_eq!(kana(&["AE", "NG"]), Ok("アング".to_string()));
}

#[test]
fn covered_output_has_a_character_for_each_lookup() {
    let p = phonemes(&["S", "T", "R", "AO", "NG"]);
    let out = convert(&p).unwrap();
    assert_eq!(out, "ストロング");
    // four lookups for five phonemes, none of them empty
    assert!(out.chars().count() >= 4);
}

#[test]
fn vowel_symbols_are_the_fifteen() {
    let vowels = [
        "AA", "AH", "AE", "AW", "AY", "ER", "IY", "IH", "UH", "UW", "EH", "EY", "AO", "OW", "OY",
    ];
    for v in vowels {
        assert!(is_vowel_str(v));
    }
    for c in ["K", "HH", "NG", "W", "Y", "", "A", "aa", "AAA", "XX"] {
        assert!(!is_vowel_str(c));
    }
}

#[test]
fn lookup_by_symbols_reads_the_table() {
    assert_eq!(lookup_symbols("K", Some("AE")), Some("カ"));
    assert_eq!(lookup_symbols("T", None), Some("ト"));
    assert_eq!(lookup_symbols("V", Some("AE")), Some("ヴァ"));
    assert_eq!(lookup_symbols("S", Some("EY")), Some("セイ"));
    assert_eq!(lookup_symbols("IH", Some("AA")), None);
    assert_eq!(lookup_symbols("K", Some("T")), None);
    assert_eq!(lookup_symbols("Q", None), None);
    assert_eq!(lookup_symbols("K", Some("")), None);
}
