//! The transducer: one pass over a pronunciation, left to right, that renders
//! it in katakana with the help of the mapping table.
//!
//! A phoneme that stands before a vowel is held back and rendered together
//! with that vowel, unless it is itself the vowel that the phoneme before it
//! was waiting for. Every other phoneme is rendered alone. What the pass does
//! at a position therefore depends only on the pronunciation: [`absorbs`] says
//! which positions are held back, [`lookup_at`] which table key is looked up
//! at the others, and [`rendered`] what has been written after a number of
//! positions.

use crate::phoneme::Phoneme;
use crate::table::{fragment, lemma_fragment_nonempty, lookup, view_of};
use vstd::prelude::*;

verus! {

/// A key of the mapping table, in symbols: a leading phoneme and the phoneme
/// that follows it, or `None` for the leading phoneme alone.
pub struct TableKey {
    pub outer: Seq<char>,
    pub inner: Option<Seq<char>>,
}

/// A table key that a conversion needed and the table does not have.
#[derive(Clone, Debug, PartialEq, Eq)]
pub struct MissingEntry {
    /// The leading phoneme.
    pub outer: String,
    /// The phoneme after it, or `None` where the leading phoneme stood alone.
    pub inner: Option<String>,
}

impl View for MissingEntry {
    type V = TableKey;

    open spec fn view(&self) -> TableKey {
        TableKey {
            outer: self.outer@,
            inner: match self.inner {
                Some(s) => Some(s@),
                None => None,
            },
        }
    }
}

/// The symbols of a pronunciation, each as its characters.
pub open spec fn symbols(phonemes: Seq<String>) -> Seq<Seq<char>> {
    Seq::new(phonemes.len(), |i: int| phonemes[i]@)
}

/// Whether a symbol spells a phoneme of the vowel set.
pub open spec fn is_vowel_symbol(s: Seq<char>) -> bool {
    Phoneme::from_symbol(s) matches Some(p) && p.is_vowel()
}

/// The table's entry for a key in symbols. A symbol that spells no phoneme
/// of the alphabet has no row and is no key of any row.
pub open spec fn entry(key: TableKey) -> Option<Seq<char>> {
    match Phoneme::from_symbol(key.outer) {
        None => None,
        Some(outer) => match key.inner {
            None => fragment(outer, None),
            Some(s) => match Phoneme::from_symbol(s) {
                None => None,
                Some(inner) => fragment(outer, Some(inner)),
            },
        },
    }
}

/// Whether the pass holds position `i` back, to render it together with the
/// vowel at `i + 1`: the next phoneme is a vowel, and position `i` is not
/// itself the partner of a phoneme held back at `i - 1`.
pub open spec fn absorbs(ps: Seq<Seq<char>>, i: int) -> bool
    decreases i,
{
    if 0 <= i && i + 1 < ps.len() && is_vowel_symbol(ps[i + 1]) {
        i == 0 || !absorbs(ps, i - 1)
    } else {
        false
    }
}

/// The key that the pass looks up when it stands at position `i`: none where
/// the position is held back, the pair with the phoneme before it where that
/// one was held back, and the phoneme alone otherwise.
pub open spec fn lookup_at(ps: Seq<Seq<char>>, i: int) -> Option<TableKey> {
    if absorbs(ps, i) {
        None
    } else if absorbs(ps, i - 1) {
        Some(TableKey { outer: ps[i - 1], inner: Some(ps[i]) })
    } else {
        Some(TableKey { outer: ps[i], inner: None })
    }
}

/// What the pass writes at position `i`: nothing where the position is held
/// back, else the table's entry for the key looked up. `None` where that key
/// is missing from the table.
pub open spec fn fragment_at(ps: Seq<Seq<char>>, i: int) -> Option<Seq<char>> {
    match lookup_at(ps, i) {
        None => Some(Seq::empty()),
        Some(key) => entry(key),
    }
}

/// Whether the table has every key that the pass looks up at the first `n`
/// positions.
pub open spec fn covered(ps: Seq<Seq<char>>, n: int) -> bool {
    forall|i: int| 0 <= i < n ==> (#[trigger] fragment_at(ps, i)) is Some
}

/// The katakana written after the first `n` positions, where the table
/// covers them: the fragments of those positions, in order.
pub open spec fn rendered(ps: Seq<Seq<char>>, n: int) -> Seq<char>
    decreases n,
{
    if n <= 0 {
        Seq::empty()
    } else {
        rendered(ps, n - 1) + match fragment_at(ps, n - 1) {
            Some(f) => f,
            None => Seq::empty(),
        }
    }
}

/// Whether `r` is the outcome of converting `ps`: the whole rendering where
/// the table covers the pronunciation, and otherwise the first key, in the
/// order of the pass, that the table lacks.
pub open spec fn is_conversion(ps: Seq<Seq<char>>, r: Result<Seq<char>, TableKey>) -> bool {
    match r {
        Ok(kana) => covered(ps, ps.len() as int) && kana == rendered(ps, ps.len() as int),
        Err(key) => exists|i: int|
            0 <= i < ps.len() && covered(ps, i) && #[trigger] lookup_at(ps, i) == Some(key)
                && entry(key) is None,
    }
}

/// What a conversion returned, as characters.
pub open spec fn outcome(r: Result<String, MissingEntry>) -> Result<Seq<char>, TableKey> {
    match r {
        Ok(kana) => Ok(kana@),
        Err(e) => Err(e@),
    }
}

/// The number of keys that the pass looks up at the first `n` positions.
pub open spec fn lookup_count(ps: Seq<Seq<char>>, n: int) -> nat
    decreases n,
{
    if n <= 0 {
        0
    } else if lookup_at(ps, n - 1) is Some {
        lookup_count(ps, n - 1) + 1
    } else {
        lookup_count(ps, n - 1)
    }
}

/// Whether a symbol spells a phoneme of the vowel set.
pub fn is_vowel_str(s: &str) -> (r: bool)
    ensures
        r == is_vowel_symbol(s@),
{
    match Phoneme::parse(s) {
        Some(p) => p.is_vowel(),
        None => false,
    }
}

/// Looks up the table's entry for `outer` followed by `inner`, or for `outer`
/// alone.
pub fn lookup_symbols(outer: &str, inner: Option<&str>) -> (r: Option<&'static str>)
    ensures
        view_of(r) == entry(
            TableKey {
                outer: outer@,
                inner: match inner {
                    Some(s) => Some(s@),
                    None => None,
                },
            },
        ),
{
    match Phoneme::parse(outer) {
        None => None,
        Some(o) => match inner {
            None => lookup(o, None),
            Some(s) => match Phoneme::parse(s) {
                None => None,
                Some(i) => lookup(o, Some(i)),
            },
        },
    }
}

/// Converts a pronunciation to katakana.
///
/// Returns the rendering where the table has every key that the pass looks
/// up. Where it lacks one, returns the first such key and writes nothing in
/// its place.
pub fn convert(phonemes: &Vec<String>) -> (r: Result<String, MissingEntry>)
    ensures
        is_conversion(symbols(phonemes@), outcome(r)),
{
    let ghost ps = symbols(phonemes@);
    let n: usize = phonemes.len();
    let mut kana = String::new();
    let mut pending: bool = false;
    let mut i: usize = 0;
    while i < n
        invariant
            i <= n,
            n == phonemes.len(),
            ps == symbols(phonemes@),
            pending == absorbs(ps, i as int - 1),
            covered(ps, i as int),
            kana@ == rendered(ps, i as int),
        decreases n - i,
    {
        let next_is_vowel = i + 1 < n && is_vowel_str(phonemes[i + 1].as_str());
        if !pending && next_is_vowel {
            pending = true;
        } else {
            let found = if pending {
                lookup_symbols(phonemes[i - 1].as_str(), Some(phonemes[i].as_str()))
            } else {
                lookup_symbols(phonemes[i].as_str(), None)
            };
            match found {
                Some(f) => {
                    kana.append(f);
                },
                None => {
                    let missing = if pending {
                        MissingEntry {
                            outer: phonemes[i - 1].clone(),
                            inner: Some(phonemes[i].clone()),
                        }
                    } else {
                        MissingEntry { outer: phonemes[i].clone(), inner: None }
                    };
                    assert(lookup_at(ps, i as int) == Some(missing@));
                    return Err(missing);
                },
            }
            pending = false;
        }
        i = i + 1;
    }
    Ok(kana)
}

/// A pronunciation has one outcome: two outcomes of converting the same
/// phonemes are the same outcome.
pub proof fn lemma_conversion_is_unique(
    ps: Seq<Seq<char>>,
    r1: Result<Seq<char>, TableKey>,
    r2: Result<Seq<char>, TableKey>,
)
    requires
        is_conversion(ps, r1),
        is_conversion(ps, r2),
    ensures
        r1 == r2,
{
    match (r1, r2) {
        (Err(k1), Err(k2)) => {
            let i1 = choose|i: int|
                0 <= i < ps.len() && covered(ps, i) && #[trigger] lookup_at(ps, i) == Some(k1)
                    && entry(k1) is None;
            let i2 = choose|i: int|
                0 <= i < ps.len() && covered(ps, i) && #[trigger] lookup_at(ps, i) == Some(k2)
                    && entry(k2) is None;
            assert(fragment_at(ps, i1) is None);
            assert(fragment_at(ps, i2) is None);
            assert(i1 == i2);
        },
        (Err(k1), Ok(_)) => {
            let i1 = choose|i: int|
                0 <= i < ps.len() && covered(ps, i) && #[trigger] lookup_at(ps, i) == Some(k1)
                    && entry(k1) is None;
            assert(fragment_at(ps, i1) is None);
        },
        (Ok(_), Err(k2)) => {
            let i2 = choose|i: int|
                0 <= i < ps.len() && covered(ps, i) && #[trigger] lookup_at(ps, i) == Some(k2)
                    && entry(k2) is None;
            assert(fragment_at(ps, i2) is None);
        },
        (Ok(_), Ok(_)) => {},
    }
}

/// Every fragment that a conversion writes holds at least one character.
pub proof fn lemma_no_empty_fragment(ps: Seq<Seq<char>>, i: int)
    requires
        lookup_at(ps, i) is Some,
    ensures
        fragment_at(ps, i) matches Some(f) ==> f.len() > 0,
{
    let key = lookup_at(ps, i)->0;
    if let Some(outer) = Phoneme::from_symbol(key.outer) {
        match key.inner {
            None => lemma_fragment_nonempty(outer, None),
            Some(s) => {
                if let Some(inner) = Phoneme::from_symbol(s) {
                    lemma_fragment_nonempty(outer, Some(inner));
                }
            },
        }
    }
}

/// A conversion looks up at most one key for each phoneme, and at least one
/// for every two; where the table covers the positions, it writes at least
/// one character for each key.
pub proof fn lemma_lookup_count(ps: Seq<Seq<char>>, n: int)
    requires
        0 <= n <= ps.len(),
    ensures
        lookup_count(ps, n) <= n,
        n <= 2 * lookup_count(ps, n) + (if absorbs(ps, n - 1) { 1int } else { 0int }),
        covered(ps, n) ==> lookup_count(ps, n) <= rendered(ps, n).len(),
    decreases n,
{
    if n > 0 {
        lemma_lookup_count(ps, n - 1);
        if covered(ps, n) {
            assert(covered(ps, n - 1));
            assert(fragment_at(ps, n - 1) is Some);
            if lookup_at(ps, n - 1) is Some {
                lemma_no_empty_fragment(ps, n - 1);
            }
        }
    }
}

/// A phoneme outside the vowel set that stands before a vowel is never
/// looked up alone: the pass holds it back, and at the vowel it looks up the
/// pair of the two.
pub proof fn lemma_consonant_joins_vowel(ps: Seq<Seq<char>>, i: int)
    requires
        0 <= i,
        i + 1 < ps.len(),
        !is_vowel_symbol(ps[i]),
        is_vowel_symbol(ps[i + 1]),
    ensures
        lookup_at(ps, i) is None,
        lookup_at(ps, i + 1) == Some(TableKey { outer: ps[i], inner: Some(ps[i + 1]) }),
{
    assert(!absorbs(ps, i - 1));
    assert(absorbs(ps, i));
    assert(!absorbs(ps, i + 1));
}

/// The last phoneme is never held back. Where the phoneme before it was, the
/// pair of the two is looked up; otherwise the last phoneme is looked up
/// alone.
pub proof fn lemma_last_phoneme(ps: Seq<Seq<char>>)
    requires
        ps.len() > 0,
    ensures
        !absorbs(ps, ps.len() - 1),
        absorbs(ps, ps.len() - 2) ==> lookup_at(ps, ps.len() - 1) == Some(
            TableKey { outer: ps[ps.len() - 2], inner: Some(ps[ps.len() - 1]) },
        ),
        !absorbs(ps, ps.len() - 2) ==> lookup_at(ps, ps.len() - 1) == Some(
            TableKey { outer: ps[ps.len() - 1], inner: None },
        ),
{
}

} // verus!
