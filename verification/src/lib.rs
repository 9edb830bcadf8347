//! English pronunciations, given as ARPABET phoneme sequences, rendered in
//! katakana.
//!
//! - [`phoneme`]: the alphabet of thirty-nine phonemes and its vowel set.
//! - [`table`]: the mapping table, from a phoneme and the vowel after it to
//!   katakana.
//! - [`transducer`]: the conversion of a pronunciation, and what holds of it.
//! - [`words`]: the words of a dictionary line.
//! - [`pronunciation`]: the dictionary, and the katakana for a word.
//! - [`fallback`]: the calls that the library makes outside itself.

pub mod fallback;
pub mod phoneme;
pub mod pronunciation;
pub mod table;
pub mod transducer;
pub mod words;

pub use phoneme::Phoneme;
pub use pronunciation::{LoadError, Pronunciation};
pub use transducer::{convert, MissingEntry};
