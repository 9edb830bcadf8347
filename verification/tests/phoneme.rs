use phoneme_kana::table::lookup;
use phoneme_kana::Phoneme;

#[test]
fn parse_reads_one_and_two_letter_symbols() {
    assert_eq!(Phoneme::parse("K"), Some(Phoneme::K));
    assert_eq!(Phoneme::parse("AE"), Some(Phoneme::Ae));
    assert_eq!(Phoneme::parse("ZH"), Some(Phoneme::Zh));
    assert_eq!(Phoneme::parse("HH"), Some(Phoneme::Hh));
    assert_eq!(Phoneme::parse("NG"), Some(Phoneme::Ng));
}

#[test]
fn parse_refuses_what_is_no_symbol() {
    for s in ["", "A", "H", "k", "ae", "AE1", "KK", "A E", "カ", "AX"] {
        assert_eq!(Phoneme::parse(s), None);
    }
}

#[test]
fn consonants_are_no_vowels() {
    assert!(Phoneme::Aa.is_vowel());
    assert!(Phoneme::Oy.is_vowel());
    assert!(Phoneme::Er.is_vowel());
    assert!(!Phoneme::W.is_vowel());
    assert!(!Phoneme::Y.is_vowel());
    assert!(!Phoneme::T.is_vowel());
}

#[test]
fn every_row_has_an_entry_for_the_phoneme_alone() {
    let symbols = [
        "AA", "AH", "AE", "AW", "AY", "ER", "IY", "IH", "UH", "UW", "EH", "EY", "AO", "OW", "OY",
        "ZH", "DH", "W", "NG", "Y", "TH", "G", "CH", "D", "B", "SH", "F", "K", "M", "R", "V", "Z",
        "N", "P", "JH", "L", "HH", "S", "T",
    ];
    for s in symbols {
        let p = Phoneme::parse(s).unwrap();
        let alone = lookup(p, None).unwrap();
        assert!(!alone.is_empty());
    }
}

#[test]
fn consonant_rows_are_complete_and_vowel_rows_hold_only_vowels() {
    let all = [
        "AA", "AH", "AE", "AW", "AY", "ER", "IY", "IH", "UH", "UW", "EH", "EY", "AO", "OW", "OY",
        "ZH", "DH", "W", "NG", "Y", "TH", "G", "CH", "D", "B", "SH", "F", "K", "M", "R", "V", "Z",
        "N", "P", "JH", "L", "HH", "S", "T",
    ];
    let mut entries = 0;
    for o in all {
        let outer = Phoneme::parse(o).unwrap();
        entries += 1;
        for i in all {
            let inner = Phoneme::parse(i).unwrap();
            match lookup(outer, Some(inner)) {
                Some(f) => {
                    assert!(inner.is_vowel());
                    assert!(!f.is_empty());
                    entries += 1;
                }
                None => assert!(outer.is_vowel() || !inner.is_vowel()),
            }
        }
    }
    assert_eq!(entries, 475);
}

#[test]
fn table_entries_are_character_for_character() {
    assert_eq!(lookup(Phoneme::Zh, Some(Phoneme::Ay)), Some("ジャイ"));
    assert_eq!(lookup(Phoneme::T, Some(Phoneme::Aa)), Some("トッ"));
    assert_eq!(lookup(Phoneme::S, Some(Phoneme::Aa)), Some("タ"));
    assert_eq!(lookup(Phoneme::Hh, Some(Phoneme::Er)), Some("ハリ"));
    assert_eq!(lookup(Phoneme::Y, Some(Phoneme::Uh)), Some("ュ"));
    assert_eq!(lookup(Phoneme::Iy, Some(Phoneme::Ih)), Some("ー"));
    assert_eq!(lookup(Phoneme::Er, Some(Phoneme::Uh)), Some("オロウ"));
    assert_eq!(lookup(Phoneme::Ow, Some(Phoneme::Ih)), Some("オーウィ"));
    assert_eq!(lookup(Phoneme::Ow, Some(Phoneme::Er)), None);
    assert_eq!(lookup(Phoneme::Ey, Some(Phoneme::Aw)), Some("アヨウ"));
    assert_eq!(lookup(Phoneme::Aa, Some(Phoneme::Uw)), Some("オウ"));
    assert_eq!(lookup(Phoneme::Aw, Some(Phoneme::Er)), Some("アワー"));
    assert_eq!(lookup(Phoneme::Uh, Some(Phoneme::Ah)), Some("ウー"));
}
