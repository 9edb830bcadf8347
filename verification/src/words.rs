//! Words of a line of text: the maximal runs of characters that are not
//! white space.

use crate::transducer::symbols;
use vstd::prelude::*;

verus! {

/// Whether a character is white space: the code points with the Unicode
/// property `White_Space`.
pub open spec fn is_space(c: char) -> bool {
    let u = c as u32;
    ||| 0x09 <= u <= 0x0D
    ||| u == 0x20
    ||| u == 0x85
    ||| u == 0xA0
    ||| u == 0x1680
    ||| 0x2000 <= u <= 0x200A
    ||| u == 0x2028
    ||| u == 0x2029
    ||| u == 0x202F
    ||| u == 0x205F
    ||| u == 0x3000
}

/// Whether a word starts at position `i`: a character that is not white
/// space, at the start of the text or after white space.
pub open spec fn word_starts_at(s: Seq<char>, i: int) -> bool {
    0 <= i < s.len() && !is_space(s[i]) && (i == 0 || is_space(s[i - 1]))
}

/// Where the run of characters that are not white space, and that holds
/// position `i`, ends: the first position from `i` on that is white space,
/// or the end of the text.
pub open spec fn word_end(s: Seq<char>, i: int) -> int
    decreases s.len() - i,
{
    if 0 <= i < s.len() && !is_space(s[i]) {
        word_end(s, i + 1)
    } else {
        i
    }
}

/// The words that start at position `i` or after it, in order.
pub open spec fn words_from(s: Seq<char>, i: int) -> Seq<Seq<char>>
    decreases s.len() - i,
{
    if i < 0 || i >= s.len() {
        Seq::empty()
    } else if word_starts_at(s, i) {
        seq![s.subrange(i, word_end(s, i))] + words_from(s, i + 1)
    } else {
        words_from(s, i + 1)
    }
}

/// The words of a text, in order.
pub open spec fn words(s: Seq<char>) -> Seq<Seq<char>> {
    words_from(s, 0)
}

/// Whether a character is white space.
pub fn is_whitespace(c: char) -> (r: bool)
    ensures
        r == is_space(c),
{
    let u: u32 = c as u32;
    (0x09 <= u && u <= 0x0D) || u == 0x20 || u == 0x85 || u == 0xA0 || u == 0x1680 || (0x2000 <= u
        && u <= 0x200A) || u == 0x2028 || u == 0x2029 || u == 0x202F || u == 0x205F || u == 0x3000
}

/// The characters of a string.
pub fn chars_of(s: &str) -> (r: Vec<char>)
    ensures
        r@ == s@,
{
    let mut chars: Vec<char> = Vec::new();
    for c in it: s.chars()
        invariant
            it.seq() == s@,
            chars@ == it.seq().take(it.index() as int),
    {
        chars.push(c);
    }
    chars
}

/// The run that starts at `i` lies inside the text, ends after `i`, and what
/// ends it is white space or the end of the text.
pub proof fn lemma_word_end(s: Seq<char>, i: int)
    requires
        0 <= i < s.len(),
        !is_space(s[i]),
    ensures
        i < word_end(s, i) <= s.len(),
        forall|j: int| i <= j < word_end(s, i) ==> !is_space(#[trigger] s[j]),
        word_end(s, i) < s.len() ==> is_space(s[word_end(s, i)]),
    decreases s.len() - i,
{
    assert(word_end(s, i) == word_end(s, i + 1));
    if i + 1 < s.len() && !is_space(s[i + 1]) {
        lemma_word_end(s, i + 1);
    } else {
        assert(word_end(s, i + 1) == i + 1);
    }
}

/// Every word holds at least one character, and no white space.
pub proof fn lemma_words_are_words(s: Seq<char>, i: int, k: int)
    requires
        0 <= k < words_from(s, i).len(),
    ensures
        words_from(s, i)[k].len() > 0,
        forall|j: int| 0 <= j < words_from(s, i)[k].len() ==> !is_space(#[trigger] words_from(s, i)[k][j]),
    decreases s.len() - i,
{
    if 0 <= i < s.len() {
        if word_starts_at(s, i) {
            if k == 0 {
                lemma_word_end(s, i);
            } else {
                lemma_words_are_words(s, i + 1, k - 1);
            }
        } else {
            lemma_words_are_words(s, i + 1, k);
        }
    }
}

/// Splits a line into its words.
pub fn split_words(line: &str) -> (r: Vec<String>)
    ensures
        symbols(r@) == words(line@),
{
    let chars = chars_of(line);
    let n: usize = chars.len();
    let mut found: Vec<String> = Vec::new();
    let mut after_space: bool = true;
    let mut i: usize = 0;
    while i < n
        invariant
            i <= n,
            n == chars.len(),
            chars@ == line@,
            after_space == (i == 0 || is_space(chars@[i as int - 1])),
            words(line@) == symbols(found@) + words_from(line@, i as int),
        decreases n - i,
    {
        let space = is_whitespace(chars[i]);
        if after_space && !space {
            let mut end: usize = i + 1;
            while end < n && !is_whitespace(chars[end])
                invariant
                    i < end <= n,
                    n == chars.len(),
                    chars@ == line@,
                    word_end(line@, i as int) == word_end(line@, end as int),
                decreases n - end,
            {
                end = end + 1;
            }
            let word = String::from_str(line.substring_char(i, end));
            proof {
                let w = line@.subrange(i as int, end as int);
                assert(word_starts_at(line@, i as int));
                assert(symbols(found@.push(word)) =~= symbols(found@).push(w));
                assert(symbols(found@).push(w) + words_from(line@, i as int + 1) =~= symbols(found@)
                    + (seq![w] + words_from(line@, i as int + 1)));
            }
            found.push(word);
        }
        after_space = space;
        i = i + 1;
    }
    proof {
        assert(symbols(found@) + Seq::<Seq<char>>::empty() =~= symbols(found@));
    }
    found
}

} // verus!
