//! What the library takes from outside: upper-casing of a word, and the
//! rendering of a word in katakana by its spelling alone, for words that have
//! no pronunciation in the dictionary.
//!
//! Nothing here is proved. Each function states what the function it calls
//! returns, by a name that stands for that result.

use vstd::prelude::*;
use wana_kana::ConvertJapanese;

verus! {

/// The upper-case form of a text, as `str::to_uppercase` gives it.
pub uninterp spec fn uppercase_of(text: Seq<char>) -> Seq<char>;

/// The kana for a text in Latin letters, as `to_kana` of `wana_kana` gives
/// it: lower-case letters become hiragana, upper-case letters katakana, and
/// what is no romaji stays as it is.
pub uninterp spec fn kana_of(text: Seq<char>) -> Seq<char>;

/// A text with its romaji and hiragana turned into katakana, as
/// `to_katakana` of `wana_kana` gives it.
pub uninterp spec fn katakana_of(text: Seq<char>) -> Seq<char>;

/// Calls `str::to_uppercase`. The result is a function of the text alone,
/// fixed by the Unicode case mappings; the contract gives it its name.
#[verifier::external_body]
pub(crate) fn uppercase(text: &str) -> (r: String)
    ensures
        r@ == uppercase_of(text@),
{
    text.to_uppercase()
}

/// Calls `ConvertJapanese::to_kana` of `wana_kana` on the text. It walks the
/// text once against fixed tables, returns for every text, and its result
/// depends on the text alone; the contract gives that result its name.
#[verifier::external_body]
pub(crate) fn to_kana(text: &str) -> (r: String)
    ensures
        r@ == kana_of(text@),
{
    text.to_kana()
}

/// Calls `ConvertJapanese::to_katakana` of `wana_kana` on the text. It
/// returns for every text, and its result depends on the text alone; the
/// contract gives that result its name.
#[verifier::external_body]
pub(crate) fn to_katakana(text: &str) -> (r: String)
    ensures
        r@ == katakana_of(text@),
{
    text.to_katakana()
}

} // verus!
