//! The phoneme alphabet: the thirty-nine ARPABET symbols that the mapping
//! table knows, their spelling, and which of them are vowels.

use vstd::prelude::*;

verus! {

/// A phoneme symbol that the mapping table has a row for.
///
/// Pronunciations are stored as plain strings, so that a dictionary may hold
/// symbols outside this alphabet; a string is turned into a `Phoneme` only at
/// the moment a table row is needed.
#[derive(Clone, Copy, Debug, PartialEq, Eq, Structural)]
pub enum Phoneme {
    Aa,
    Ah,
    Ae,
    Aw,
    Ay,
    Er,
    Iy,
    Ih,
    Uh,
    Uw,
    Eh,
    Ey,
    Ao,
    Ow,
    Oy,
    Zh,
    Dh,
    W,
    Ng,
    Y,
    Th,
    G,
    Ch,
    D,
    B,
    Sh,
    F,
    K,
    M,
    R,
    V,
    Z,
    N,
    P,
    Jh,
    L,
    Hh,
    S,
    T,
}

impl Phoneme {
    /// The spelling of the phoneme, as it stands in a pronunciation.
    pub open spec fn symbol(self) -> Seq<char> {
        match self {
            Phoneme::Aa => seq!['A', 'A'],
            Phoneme::Ah => seq!['A', 'H'],
            Phoneme::Ae => seq!['A', 'E'],
            Phoneme::Aw => seq!['A', 'W'],
            Phoneme::Ay => seq!['A', 'Y'],
            Phoneme::Er => seq!['E', 'R'],
            Phoneme::Iy => seq!['I', 'Y'],
            Phoneme::Ih => seq!['I', 'H'],
            Phoneme::Uh => seq!['U', 'H'],
            Phoneme::Uw => seq!['U', 'W'],
            Phoneme::Eh => seq!['E', 'H'],
            Phoneme::Ey => seq!['E', 'Y'],
            Phoneme::Ao => seq!['A', 'O'],
            Phoneme::Ow => seq!['O', 'W'],
            Phoneme::Oy => seq!['O', 'Y'],
            Phoneme::Zh => seq!['Z', 'H'],
            Phoneme::Dh => seq!['D', 'H'],
            Phoneme::W => seq!['W'],
            Phoneme::Ng => seq!['N', 'G'],
            Phoneme::Y => seq!['Y'],
            Phoneme::Th => seq!['T', 'H'],
            Phoneme::G => seq!['G'],
            Phoneme::Ch => seq!['C', 'H'],
            Phoneme::D => seq!['D'],
            Phoneme::B => seq!['B'],
            Phoneme::Sh => seq!['S', 'H'],
            Phoneme::F => seq!['F'],
            Phoneme::K => seq!['K'],
            Phoneme::M => seq!['M'],
            Phoneme::R => seq!['R'],
            Phoneme::V => seq!['V'],
            Phoneme::Z => seq!['Z'],
            Phoneme::N => seq!['N'],
            Phoneme::P => seq!['P'],
            Phoneme::Jh => seq!['J', 'H'],
            Phoneme::L => seq!['L'],
            Phoneme::Hh => seq!['H', 'H'],
            Phoneme::S => seq!['S'],
            Phoneme::T => seq!['T'],
        }
    }

    /// The phoneme spelled by one letter, if there is one.
    pub open spec fn from_letter(c: char) -> Option<Phoneme> {
        match c {
            'W' => Some(Phoneme::W),
            'Y' => Some(Phoneme::Y),
            'G' => Some(Phoneme::G),
            'D' => Some(Phoneme::D),
            'B' => Some(Phoneme::B),
            'F' => Some(Phoneme::F),
            'K' => Some(Phoneme::K),
            'M' => Some(Phoneme::M),
            'R' => Some(Phoneme::R),
            'V' => Some(Phoneme::V),
            'Z' => Some(Phoneme::Z),
            'N' => Some(Phoneme::N),
            'P' => Some(Phoneme::P),
            'L' => Some(Phoneme::L),
            'S' => Some(Phoneme::S),
            'T' => Some(Phoneme::T),
            _ => None,
        }
    }

    /// The phoneme spelled by two letters, if there is one.
    pub open spec fn from_letters(c0: char, c1: char) -> Option<Phoneme> {
        match (c0, c1) {
            ('A', 'A') => Some(Phoneme::Aa),
            ('A', 'H') => Some(Phoneme::Ah),
            ('A', 'E') => Some(Phoneme::Ae),
            ('A', 'W') => Some(Phoneme::Aw),
            ('A', 'Y') => Some(Phoneme::Ay),
            ('E', 'R') => Some(Phoneme::Er),
            ('I', 'Y') => Some(Phoneme::Iy),
            ('I', 'H') => Some(Phoneme::Ih),
            ('U', 'H') => Some(Phoneme::Uh),
            ('U', 'W') => Some(Phoneme::Uw),
            ('E', 'H') => Some(Phoneme::Eh),
            ('E', 'Y') => Some(Phoneme::Ey),
            ('A', 'O') => Some(Phoneme::Ao),
            ('O', 'W') => Some(Phoneme::Ow),
            ('O', 'Y') => Some(Phoneme::Oy),
            ('Z', 'H') => Some(Phoneme::Zh),
            ('D', 'H') => Some(Phoneme::Dh),
            ('N', 'G') => Some(Phoneme::Ng),
            ('T', 'H') => Some(Phoneme::Th),
            ('C', 'H') => Some(Phoneme::Ch),
            ('S', 'H') => Some(Phoneme::Sh),
            ('J', 'H') => Some(Phoneme::Jh),
            ('H', 'H') => Some(Phoneme::Hh),
            _ => None,
        }
    }

    /// The phoneme that a string spells: `Some(p)` exactly when the string is
    /// `p.symbol()`, letter for letter (see [`Phoneme::lemma_from_symbol`]).
    pub open spec fn from_symbol(s: Seq<char>) -> Option<Phoneme> {
        if s.len() == 1 {
            Phoneme::from_letter(s[0])
        } else if s.len() == 2 {
            Phoneme::from_letters(s[0], s[1])
        } else {
            None
        }
    }

    /// Membership in the vowel set: the fifteen phonemes that a preceding
    /// phoneme may combine with.
    pub open spec fn spec_is_vowel(self) -> bool {
        self is Aa || self is Ah || self is Ae || self is Aw || self is Ay || self is Er
            || self is Iy || self is Ih || self is Uh || self is Uw || self is Eh || self is Ey
            || self is Ao || self is Ow || self is Oy
    }

    /// `from_symbol` inverts `symbol`: every phoneme is found again from its
    /// spelling.
    pub proof fn lemma_symbol_round_trip(p: Phoneme)
        ensures
            Phoneme::from_symbol(p.symbol()) == Some(p),
    {
    }

    /// `from_symbol` accepts a string only if it is the spelling of the
    /// phoneme that it returns.
    pub proof fn lemma_from_symbol(s: Seq<char>)
        ensures
            match Phoneme::from_symbol(s) {
                Some(p) => s == p.symbol(),
                None => forall|p: Phoneme| p.symbol() != s,
            },
    {
        match Phoneme::from_symbol(s) {
            Some(p) => {
                assert(s =~= p.symbol());
            },
            None => {
                assert forall|p: Phoneme| p.symbol() != s by {
                    Phoneme::lemma_symbol_round_trip(p);
                }
            },
        }
    }

    /// Reads a phoneme from its spelling.
    pub fn parse(s: &str) -> (r: Option<Phoneme>)
        ensures
            r == Phoneme::from_symbol(s@),
    {
        let n: usize = s.unicode_len();
        if n == 1 {
            match s.get_char(0) {
                'W' => Some(Phoneme::W),
                'Y' => Some(Phoneme::Y),
                'G' => Some(Phoneme::G),
                'D' => Some(Phoneme::D),
                'B' => Some(Phoneme::B),
                'F' => Some(Phoneme::F),
                'K' => Some(Phoneme::K),
                'M' => Some(Phoneme::M),
                'R' => Some(Phoneme::R),
                'V' => Some(Phoneme::V),
                'Z' => Some(Phoneme::Z),
                'N' => Some(Phoneme::N),
                'P' => Some(Phoneme::P),
                'L' => Some(Phoneme::L),
                'S' => Some(Phoneme::S),
                'T' => Some(Phoneme::T),
                _ => None,
            }
        } else if n == 2 {
            match (s.get_char(0), s.get_char(1)) {
                ('A', 'A') => Some(Phoneme::Aa),
                ('A', 'H') => Some(Phoneme::Ah),
                ('A', 'E') => Some(Phoneme::Ae),
                ('A', 'W') => Some(Phoneme::Aw),
                ('A', 'Y') => Some(Phoneme::Ay),
                ('E', 'R') => Some(Phoneme::Er),
                ('I', 'Y') => Some(Phoneme::Iy),
                ('I', 'H') => Some(Phoneme::Ih),
                ('U', 'H') => Some(Phoneme::Uh),
                ('U', 'W') => Some(Phoneme::Uw),
                ('E', 'H') => Some(Phoneme::Eh),
                ('E', 'Y') => Some(Phoneme::Ey),
                ('A', 'O') => Some(Phoneme::Ao),
                ('O', 'W') => Some(Phoneme::Ow),
                ('O', 'Y') => Some(Phoneme::Oy),
                ('Z', 'H') => Some(Phoneme::Zh),
                ('D', 'H') => Some(Phoneme::Dh),
                ('N', 'G') => Some(Phoneme::Ng),
                ('T', 'H') => Some(Phoneme::Th),
                ('C', 'H') => Some(Phoneme::Ch),
                ('S', 'H') => Some(Phoneme::Sh),
                ('J', 'H') => Some(Phoneme::Jh),
                ('H', 'H') => Some(Phoneme::Hh),
                _ => None,
            }
        } else {
            None
        }
    }

    /// Whether the phoneme belongs to the vowel set.
    #[verifier::when_used_as_spec(spec_is_vowel)]
    pub fn is_vowel(self) -> (r: bool)
        ensures
            r == self.spec_is_vowel(),
    {
        match self {
            Phoneme::Aa
            | Phoneme::Ah
            | Phoneme::Ae
            | Phoneme::Aw
            | Phoneme::Ay
            | Phoneme::Er
            | Phoneme::Iy
            | Phoneme::Ih
            | Phoneme::Uh
            | Phoneme::Uw
            | Phoneme::Eh
            | Phoneme::Ey
            | Phoneme::Ao
            | Phoneme::Ow
            | Phoneme::Oy => true,
            _ => false,
        }
    }
}

} // verus!
