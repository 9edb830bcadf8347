use phoneme_kana::words::{chars_of, is_whitespace, split_words};

fn std_words(line: &str) -> Vec<String> {
    line.split_whitespace().map(str::to_string).collect()
}

#[test]
fn white_space_is_what_std_calls_white_space() {
    for code in 0..=0x10FFFFu32 {
        if let Some(c) = char::from_u32(code) {
            assert_eq!(is_whitespace(c), c.is_whitespace());
        }
    }
}

#[test]
fn white_space_has_twenty_five_code_points() {
    let count = (0..=0x10FFFFu32).filter_map(char::from_u32).filter(|c| is_whitespace(*c)).count();
    assert_eq!(count, 25);
}

#[test]
fn chars_of_keeps_every_character() {
    assert_eq!(chars_of(""), Vec::<char>::new());
    assert_eq!(chars_of("aカ b"), vec!['a', 'カ', ' ', 'b']);
}

#[test]
fn line_splits_at_white_space() {
    assert_eq!(split_words("HELLO HH AH L OW"), vec!["HELLO", "HH", "AH", "L", "OW"]);
}

#[test]
fn runs_of_white_space_separate_once() {
    assert_eq!(split_words("  A \t\t B\r\n"), vec!["A", "B"]);
    assert_eq!(split_words("A"), vec!["A"]);
}

#[test]
fn line_without_words_splits_into_nothing() {
    assert_eq!(split_words(""), Vec::<String>::new());
    assert_eq!(split_words(" \t \u{2003}"), Vec::<String>::new());
}

#[test]
fn words_may_hold_any_other_character() {
    assert_eq!(split_words("カタ\u{3000}カナ\u{a0}é\u{200b}x"), vec!["カタ", "カナ", "é\u{200b}x"]);
}

#[test]
fn split_words_agrees_with_std() {
    let samples = [
        "",
        " ",
        "a",
        " a",
        "a ",
        "a b",
        "a  b   c",
        "\tHELLO\u{85}HH\u{1680}AH\u{2028}L\u{2029}OW\u{202f}\u{205f}",
        "ab\u{0b}cd\u{0c}ef",
        "x\u{180e}y \u{feff}z",
        "'BOUT  B AW1 T",
    ];
    for s in samples {
        assert_eq!(split_words(s), std_words(s));
    }
}
