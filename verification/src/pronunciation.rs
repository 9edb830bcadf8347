//! The pronunciation dictionary: words with their phonemes, read from the
//! lines of a dictionary text, and the katakana for a word.

use crate::fallback::{kana_of, katakana_of, to_kana, to_katakana, uppercase, uppercase_of};
use crate::transducer::{
    convert, is_conversion, lemma_conversion_is_unique, outcome, symbols, MissingEntry, TableKey,
};
use crate::words::{split_words, words};
use vstd::hash_map::StringHashMap;
use vstd::prelude::*;

verus! {

/// Why a dictionary text could not be read.
#[derive(Clone, Copy, Debug, PartialEq, Eq, Structural)]
pub enum LoadError {
    /// The line at `index`, counted from zero, holds no word.
    MalformedLine { index: usize },
}

/// A pronunciation dictionary.
pub struct Pronunciation {
    /// The phonemes of each word, keyed by the word in upper case.
    pub pronunciation_map: StringHashMap<Vec<String>>,
}

/// What a map from words to phonemes holds, as characters.
pub open spec fn entries_of(map: Map<Seq<char>, Vec<String>>) -> Map<Seq<char>, Seq<Seq<char>>> {
    map.map_values(|phonemes: Vec<String>| symbols(phonemes@))
}

/// The dictionary that the first `n` lines make: each line enters its first
/// word with the words after it as phonemes, and a later line replaces an
/// earlier one for the same word.
pub open spec fn loaded(lines: Seq<Seq<char>>, n: int) -> Map<Seq<char>, Seq<Seq<char>>>
    decreases n,
{
    if n <= 0 {
        Map::empty()
    } else {
        loaded(lines, n - 1).insert(words(lines[n - 1])[0], words(lines[n - 1]).skip(1))
    }
}

/// Whether each of the first `n` lines holds at least one word.
pub open spec fn well_formed(lines: Seq<Seq<char>>, n: int) -> bool {
    forall|i: int| 0 <= i < n ==> (#[trigger] words(lines[i])).len() > 0
}

impl Pronunciation {
    /// The dictionary, as characters: for each word its phonemes.
    pub open spec fn entries(&self) -> Map<Seq<char>, Seq<Seq<char>>> {
        entries_of(self.pronunciation_map@)
    }

    /// Whether `r` is the katakana for `word`: for a word whose upper-case
    /// form is in the dictionary, the outcome of converting its phonemes;
    /// for any other word, its rendering by spelling.
    pub open spec fn is_kana_for(&self, word: Seq<char>, r: Result<Seq<char>, TableKey>) -> bool {
        let key = uppercase_of(word);
        if self.entries().contains_key(key) {
            is_conversion(self.entries()[key], r)
        } else {
            r == Ok::<Seq<char>, TableKey>(katakana_of(kana_of(word)))
        }
    }

    /// Reads a dictionary from the lines of its text. A line holds a word and
    /// then its phonemes, separated by white space.
    ///
    /// Fails on the first line that holds no word; no part of the dictionary
    /// is returned then.
    pub fn new(lines: &Vec<String>) -> (r: Result<Pronunciation, LoadError>)
        ensures
            match r {
                Ok(p) => well_formed(symbols(lines@), lines.len() as int) && p.entries() == loaded(
                    symbols(lines@),
                    lines.len() as int,
                ),
                Err(LoadError::MalformedLine { index }) => index < lines.len() && well_formed(
                    symbols(lines@),
                    index as int,
                ) && words(lines[index as int]@).len() == 0,
            },
    {
        let ghost ls = symbols(lines@);
        let n: usize = lines.len();
        let mut map: StringHashMap<Vec<String>> = StringHashMap::new();
        let mut i: usize = 0;
        proof {
            assert(entries_of(map@) =~= loaded(ls, 0));
        }
        while i < n
            invariant
                i <= n,
                n == lines.len(),
                ls == symbols(lines@),
                well_formed(ls, i as int),
                entries_of(map@) == loaded(ls, i as int),
            decreases n - i,
        {
            let mut phonemes = split_words(lines[i].as_str());
            if phonemes.len() == 0 {
                return Err(LoadError::MalformedLine { index: i });
            }
            let ghost line_words = symbols(phonemes@);
            let word = phonemes.remove(0);
            proof {
                assert(symbols(phonemes@) =~= line_words.skip(1));
                assert(entries_of(map@.insert(word@, phonemes)) =~= entries_of(map@).insert(
                    word@,
                    symbols(phonemes@),
                ));
            }
            map.insert(word, phonemes);
            i = i + 1;
        }
        Ok(Pronunciation { pronunciation_map: map })
    }

    /// The phonemes that the dictionary holds for a key, taken as it is
    /// written.
    pub fn pronunciation_of(&self, key: &str) -> (r: Option<&Vec<String>>)
        ensures
            match r {
                Some(phonemes) => self.entries().contains_key(key@) && symbols(phonemes@)
                    == self.entries()[key@],
                None => !self.entries().contains_key(key@),
            },
    {
        self.pronunciation_map.get(key)
    }

    /// Converts a pronunciation to katakana: see [`convert`].
    pub fn phoneme_to_kana(&self, phonemes: &Vec<String>) -> (r: Result<String, MissingEntry>)
        ensures
            is_conversion(symbols(phonemes@), outcome(r)),
    {
        convert(phonemes)
    }

    /// The katakana for a dictionary key, from its phonemes; `None` where the
    /// dictionary does not hold the key.
    pub fn lookup_kana(&self, key: &str) -> (r: Option<Result<String, MissingEntry>>)
        ensures
            match r {
                Some(kana) => self.entries().contains_key(key@) && is_conversion(
                    self.entries()[key@],
                    outcome(kana),
                ),
                None => !self.entries().contains_key(key@),
            },
    {
        match self.pronunciation_of(key) {
            Some(phonemes) => Some(self.phoneme_to_kana(phonemes)),
            None => None,
        }
    }

    /// The katakana for a word.
    ///
    /// A word whose upper-case form is in the dictionary is rendered from its
    /// phonemes; this fails where the mapping table lacks a key that the
    /// phonemes need. Any other word is rendered by its spelling, which
    /// cannot fail.
    pub fn get_kana(&self, word: String) -> (r: Result<String, MissingEntry>)
        ensures
            self.is_kana_for(word@, outcome(r)),
    {
        let key = uppercase(word.as_str());
        match self.lookup_kana(key.as_str()) {
            Some(kana) => kana,
            None => {
                let kana = to_kana(word.as_str());
                Ok(to_katakana(kana.as_str()))
            },
        }
    }

    /// The katakana for a word is settled by the dictionary and the word:
    /// two outcomes for the same word are the same outcome. For a word in the
    /// dictionary whose phonemes the table covers, it is the rendering of
    /// those phonemes.
    pub proof fn lemma_kana_is_determined(
        &self,
        word: Seq<char>,
        r1: Result<Seq<char>, TableKey>,
        r2: Result<Seq<char>, TableKey>,
    )
        requires
            self.is_kana_for(word, r1),
            self.is_kana_for(word, r2),
        ensures
            r1 == r2,
            self.entries().contains_key(uppercase_of(word)) ==> is_conversion(
                self.entries()[uppercase_of(word)],
                r1,
            ),
    {
        let key = uppercase_of(word);
        if self.entries().contains_key(key) {
            lemma_conversion_is_unique(self.entries()[key], r1, r2);
        }
    }
}

} // verus!
