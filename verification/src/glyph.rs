//! The letters and the marks of the alphabet, and the characters that write them.

use vstd::prelude::*;

verus! {

/// A letter of the Pinyin alphabet: the Latin letters without `v`, and eng.
#[derive(Copy, Clone, PartialEq, Eq, Debug, Hash, Structural)]
pub enum Alphabet {
    A,
    B,
    C,
    D,
    E,
    F,
    G,
    H,
    I,
    J,
    K,
    L,
    M,
    N,
    O,
    P,
    Q,
    R,
    S,
    T,
    U,
    W,
    X,
    Y,
    Z,
    Eng,
}

/// A mark that a letter can carry.
#[derive(Copy, Clone, PartialEq, Eq, Debug, Hash, Structural)]
pub enum Diacritic {
    Macron,
    Acute,
    Caron,
    Grave,
    Circumflex,
    Diaeresis,
}

impl Alphabet {
    /// The small form of the letter.
    pub open spec fn lower(self) -> char {
        match self {
            Alphabet::A => 'a',
            Alphabet::B => 'b',
            Alphabet::C => 'c',
            Alphabet::D => 'd',
            Alphabet::E => 'e',
            Alphabet::F => 'f',
            Alphabet::G => 'g',
            Alphabet::H => 'h',
            Alphabet::I => 'i',
            Alphabet::J => 'j',
            Alphabet::K => 'k',
            Alphabet::L => 'l',
            Alphabet::M => 'm',
            Alphabet::N => 'n',
            Alphabet::O => 'o',
            Alphabet::P => 'p',
            Alphabet::Q => 'q',
            Alphabet::R => 'r',
            Alphabet::S => 's',
            Alphabet::T => 't',
            Alphabet::U => 'u',
            Alphabet::W => 'w',
            Alphabet::X => 'x',
            Alphabet::Y => 'y',
            Alphabet::Z => 'z',
            Alphabet::Eng => '\u{14b}',
        }
    }

    /// The capital form of the letter.
    pub open spec fn upper(self) -> char {
        match self {
            Alphabet::A => 'A',
            Alphabet::B => 'B',
            Alphabet::C => 'C',
            Alphabet::D => 'D',
            Alphabet::E => 'E',
            Alphabet::F => 'F',
            Alphabet::G => 'G',
            Alphabet::H => 'H',
            Alphabet::I => 'I',
            Alphabet::J => 'J',
            Alphabet::K => 'K',
            Alphabet::L => 'L',
            Alphabet::M => 'M',
            Alphabet::N => 'N',
            Alphabet::O => 'O',
            Alphabet::P => 'P',
            Alphabet::Q => 'Q',
            Alphabet::R => 'R',
            Alphabet::S => 'S',
            Alphabet::T => 'T',
            Alphabet::U => 'U',
            Alphabet::W => 'W',
            Alphabet::X => 'X',
            Alphabet::Y => 'Y',
            Alphabet::Z => 'Z',
            Alphabet::Eng => '\u{14a}',
        }
    }

    /// The character that writes the letter, capital or small.
    pub open spec fn glyph(self, capitalized: bool) -> char {
        if capitalized {
            self.upper()
        } else {
            self.lower()
        }
    }

    /// The letter that the character `c` writes and whether it is the capital form, if `c`
    /// writes a letter of the alphabet at all.
    pub open spec fn of_glyph(c: char) -> Option<(Alphabet, bool)> {
        if exists|l: (Alphabet, bool)| l.0.glyph(l.1) == c {
            Some(choose|l: (Alphabet, bool)| l.0.glyph(l.1) == c)
        } else {
            None
        }
    }

    /// The character that writes the letter, capital or small.
    pub fn to_glyph(self, capitalized: bool) -> (c: char)
        ensures
            c == self.glyph(capitalized),
    {
        let (small, capital) = match self {
            Alphabet::A => ('a', 'A'),
            Alphabet::B => ('b', 'B'),
            Alphabet::C => ('c', 'C'),
            Alphabet::D => ('d', 'D'),
            Alphabet::E => ('e', 'E'),
            Alphabet::F => ('f', 'F'),
            Alphabet::G => ('g', 'G'),
            Alphabet::H => ('h', 'H'),
            Alphabet::I => ('i', 'I'),
            Alphabet::J => ('j', 'J'),
            Alphabet::K => ('k', 'K'),
            Alphabet::L => ('l', 'L'),
            Alphabet::M => ('m', 'M'),
            Alphabet::N => ('n', 'N'),
            Alphabet::O => ('o', 'O'),
            Alphabet::P => ('p', 'P'),
            Alphabet::Q => ('q', 'Q'),
            Alphabet::R => ('r', 'R'),
            Alphabet::S => ('s', 'S'),
            Alphabet::T => ('t', 'T'),
            Alphabet::U => ('u', 'U'),
            Alphabet::W => ('w', 'W'),
            Alphabet::X => ('x', 'X'),
            Alphabet::Y => ('y', 'Y'),
            Alphabet::Z => ('z', 'Z'),
            Alphabet::Eng => ('\u{14b}', '\u{14a}'),
        };
        if capitalized {
            capital
        } else {
            small
        }
    }

    /// Reads a character as a letter of the alphabet, capital or small.
    pub fn from_glyph(c: char) -> (letter: Option<(Alphabet, bool)>)
        ensures
            letter == Alphabet::of_glyph(c),
    {
        let letter = match c {
            'a' => Some((Alphabet::A, false)),
            'A' => Some((Alphabet::A, true)),
            'b' => Some((Alphabet::B, false)),
            'B' => Some((Alphabet::B, true)),
            'c' => Some((Alphabet::C, false)),
            'C' => Some((Alphabet::C, true)),
            'd' => Some((Alphabet::D, false)),
            'D' => Some((Alphabet::D, true)),
            'e' => Some((Alphabet::E, false)),
            'E' => Some((Alphabet::E, true)),
            'f' => Some((Alphabet::F, false)),
            'F' => Some((Alphabet::F, true)),
            'g' => Some((Alphabet::G, false)),
            'G' => Some((Alphabet::G, true)),
            'h' => Some((Alphabet::H, false)),
            'H' => Some((Alphabet::H, true)),
            'i' => Some((Alphabet::I, false)),
            'I' => Some((Alphabet::I, true)),
            'j' => Some((Alphabet::J, false)),
            'J' => Some((Alphabet::J, true)),
            'k' => Some((Alphabet::K, false)),
            'K' => Some((Alphabet::K, true)),
            'l' => Some((Alphabet::L, false)),
            'L' => Some((Alphabet::L, true)),
            'm' => Some((Alphabet::M, false)),
            'M' => Some((Alphabet::M, true)),
            'n' => Some((Alphabet::N, false)),
            'N' => Some((Alphabet::N, true)),
            'o' => Some((Alphabet::O, false)),
            'O' => Some((Alphabet::O, true)),
            'p' => Some((Alphabet::P, false)),
            'P' => Some((Alphabet::P, true)),
            'q' => Some((Alphabet::Q, false)),
            'Q' => Some((Alphabet::Q, true)),
            'r' => Some((Alphabet::R, false)),
            'R' => Some((Alphabet::R, true)),
            's' => Some((Alphabet::S, false)),
            'S' => Some((Alphabet::S, true)),
            't' => Some((Alphabet::T, false)),
            'T' => Some((Alphabet::T, true)),
            'u' => Some((Alphabet::U, false)),
            'U' => Some((Alphabet::U, true)),
            'w' => Some((Alphabet::W, false)),
            'W' => Some((Alphabet::W, true)),
            'x' => Some((Alphabet::X, false)),
            'X' => Some((Alphabet::X, true)),
            'y' => Some((Alphabet::Y, false)),
            'Y' => Some((Alphabet::Y, true)),
            'z' => Some((Alphabet::Z, false)),
            'Z' => Some((Alphabet::Z, true)),
            '\u{14b}' => Some((Alphabet::Eng, false)),
            '\u{14a}' => Some((Alphabet::Eng, true)),
            _ => None,
        };
        proof {
            if let Some(l) = letter {
                assert(l.0.glyph(l.1) == c);
            }
        }
        letter
    }
}

impl Diacritic {
    /// The combining character that writes this mark after its letter.
    pub open spec fn combining(self) -> char {
        match self {
            Diacritic::Macron => '\u{304}',
            Diacritic::Acute => '\u{301}',
            Diacritic::Caron => '\u{30c}',
            Diacritic::Grave => '\u{300}',
            Diacritic::Circumflex => '\u{302}',
            Diacritic::Diaeresis => '\u{308}',
        }
    }

    /// The mark that the combining character `c` writes, if it writes one.
    pub open spec fn of_combining(c: char) -> Option<Diacritic> {
        if exists|d: Diacritic| d.combining() == c {
            Some(choose|d: Diacritic| d.combining() == c)
        } else {
            None
        }
    }

    /// The combining character that writes this mark.
    pub fn to_combining(self) -> (c: char)
        ensures
            c == self.combining(),
    {
        match self {
            Diacritic::Macron => '\u{304}',
            Diacritic::Acute => '\u{301}',
            Diacritic::Caron => '\u{30c}',
            Diacritic::Grave => '\u{300}',
            Diacritic::Circumflex => '\u{302}',
            Diacritic::Diaeresis => '\u{308}',
        }
    }

    /// Reads a combining character as a mark.
    pub fn from_combining(c: char) -> (mark: Option<Diacritic>)
        ensures
            mark == Diacritic::of_combining(c),
    {
        let mark = match c {
            '\u{304}' => Some(Diacritic::Macron),
            '\u{301}' => Some(Diacritic::Acute),
            '\u{30c}' => Some(Diacritic::Caron),
            '\u{300}' => Some(Diacritic::Grave),
            '\u{302}' => Some(Diacritic::Circumflex),
            '\u{308}' => Some(Diacritic::Diaeresis),
            _ => None,
        };
        proof {
            if let Some(d) = mark {
                assert(d.combining() == c);
            }
        }
        mark
    }
}

/// The two characters, small and capital, that Unicode has for a letter together with the
/// mark `first` and, after it, the mark `second`.
pub open spec fn precomposed_pair(
    alphabet: Alphabet,
    first: Diacritic,
    second: Option<Diacritic>,
) -> Option<(char, char)> {
    match (alphabet, first, second) {
        (Alphabet::A, Diacritic::Macron, None) => Some(('\u{101}', '\u{100}')),  // ā Ā
        (Alphabet::A, Diacritic::Acute, None) => Some(('\u{e1}', '\u{c1}')),  // á Á
        (Alphabet::A, Diacritic::Caron, None) => Some(('\u{1ce}', '\u{1cd}')),  // ǎ Ǎ
        (Alphabet::A, Diacritic::Grave, None) => Some(('\u{e0}', '\u{c0}')),  // à À
        (Alphabet::A, Diacritic::Circumflex, None) => Some(('\u{e2}', '\u{c2}')),  // â Â
        (Alphabet::A, Diacritic::Diaeresis, None) => Some(('\u{e4}', '\u{c4}')),  // ä Ä
        (Alphabet::A, Diacritic::Circumflex, Some(Diacritic::Acute)) => Some(('\u{1ea5}', '\u{1ea4}')),  // ấ Ấ
        (Alphabet::A, Diacritic::Circumflex, Some(Diacritic::Grave)) => Some(('\u{1ea7}', '\u{1ea6}')),  // ầ Ầ
        (Alphabet::A, Diacritic::Diaeresis, Some(Diacritic::Macron)) => Some(('\u{1df}', '\u{1de}')),  // ǟ Ǟ
        (Alphabet::C, Diacritic::Acute, None) => Some(('\u{107}', '\u{106}')),  // ć Ć
        (Alphabet::C, Diacritic::Caron, None) => Some(('\u{10d}', '\u{10c}')),  // č Č
        (Alphabet::C, Diacritic::Circumflex, None) => Some(('\u{109}', '\u{108}')),  // ĉ Ĉ
        (Alphabet::D, Diacritic::Caron, None) => Some(('\u{10f}', '\u{10e}')),  // ď Ď
        (Alphabet::E, Diacritic::Macron, None) => Some(('\u{113}', '\u{112}')),  // ē Ē
        (Alphabet::E, Diacritic::Acute, None) => Some(('\u{e9}', '\u{c9}')),  // é É
        (Alphabet::E, Diacritic::Caron, None) => Some(('\u{11b}', '\u{11a}')),  // ě Ě
        (Alphabet::E, Diacritic::Grave, None) => Some(('\u{e8}', '\u{c8}')),  // è È
        (Alphabet::E, Diacritic::Circumflex, None) => Some(('\u{ea}', '\u{ca}')),  // ê Ê
        (Alphabet::E, Diacritic::Diaeresis, None) => Some(('\u{eb}', '\u{cb}')),  // ë Ë
        (Alphabet::E, Diacritic::Macron, Some(Diacritic::Acute)) => Some(('\u{1e17}', '\u{1e16}')),  // ḗ Ḗ
        (Alphabet::E, Diacritic::Macron, Some(Diacritic::Grave)) => Some(('\u{1e15}', '\u{1e14}')),  // ḕ Ḕ
        (Alphabet::E, Diacritic::Circumflex, Some(Diacritic::Acute)) => Some(('\u{1ebf}', '\u{1ebe}')),  // ế Ế
        (Alphabet::E, Diacritic::Circumflex, Some(Diacritic::Grave)) => Some(('\u{1ec1}', '\u{1ec0}')),  // ề Ề
        (Alphabet::G, Diacritic::Macron, None) => Some(('\u{1e21}', '\u{1e20}')),  // ḡ Ḡ
        (Alphabet::G, Diacritic::Acute, None) => Some(('\u{1f5}', '\u{1f4}')),  // ǵ Ǵ
        (Alphabet::G, Diacritic::Caron, None) => Some(('\u{1e7}', '\u{1e6}')),  // ǧ Ǧ
        (Alphabet::G, Diacritic::Circumflex, None) => Some(('\u{11d}', '\u{11c}')),  // ĝ Ĝ
        (Alphabet::H, Diacritic::Caron, None) => Some(('\u{21f}', '\u{21e}')),  // ȟ Ȟ
        (Alphabet::H, Diacritic::Circumflex, None) => Some(('\u{125}', '\u{124}')),  // ĥ Ĥ
        (Alphabet::H, Diacritic::Diaeresis, None) => Some(('\u{1e27}', '\u{1e26}')),  // ḧ Ḧ
        (Alphabet::I, Diacritic::Macron, None) => Some(('\u{12b}', '\u{12a}')),  // ī Ī
        (Alphabet::I, Diacritic::Acute, None) => Some(('\u{ed}', '\u{cd}')),  // í Í
        (Alphabet::I, Diacritic::Caron, None) => Some(('\u{1d0}', '\u{1cf}')),  // ǐ Ǐ
        (Alphabet::I, Diacritic::Grave, None) => Some(('\u{ec}', '\u{cc}')),  // ì Ì
        (Alphabet::I, Diacritic::Circumflex, None) => Some(('\u{ee}', '\u{ce}')),  // î Î
        (Alphabet::I, Diacritic::Diaeresis, None) => Some(('\u{ef}', '\u{cf}')),  // ï Ï
        (Alphabet::I, Diacritic::Diaeresis, Some(Diacritic::Acute)) => Some(('\u{1e2f}', '\u{1e2e}')),  // ḯ Ḯ
        (Alphabet::J, Diacritic::Circumflex, None) => Some(('\u{135}', '\u{134}')),  // ĵ Ĵ
        (Alphabet::K, Diacritic::Acute, None) => Some(('\u{1e31}', '\u{1e30}')),  // ḱ Ḱ
        (Alphabet::K, Diacritic::Caron, None) => Some(('\u{1e9}', '\u{1e8}')),  // ǩ Ǩ
        (Alphabet::L, Diacritic::Acute, None) => Some(('\u{13a}', '\u{139}')),  // ĺ Ĺ
        (Alphabet::L, Diacritic::Caron, None) => Some(('\u{13e}', '\u{13d}')),  // ľ Ľ
        (Alphabet::M, Diacritic::Acute, None) => Some(('\u{1e3f}', '\u{1e3e}')),  // ḿ Ḿ
        (Alphabet::N, Diacritic::Acute, None) => Some(('\u{144}', '\u{143}')),  // ń Ń
        (Alphabet::N, Diacritic::Caron, None) => Some(('\u{148}', '\u{147}')),  // ň Ň
        (Alphabet::N, Diacritic::Grave, None) => Some(('\u{1f9}', '\u{1f8}')),  // ǹ Ǹ
        (Alphabet::O, Diacritic::Macron, None) => Some(('\u{14d}', '\u{14c}')),  // ō Ō
        (Alphabet::O, Diacritic::Acute, None) => Some(('\u{f3}', '\u{d3}')),  // ó Ó
        (Alphabet::O, Diacritic::Caron, None) => Some(('\u{1d2}', '\u{1d1}')),  // ǒ Ǒ
        (Alphabet::O, Diacritic::Grave, None) => Some(('\u{f2}', '\u{d2}')),  // ò Ò
        (Alphabet::O, Diacritic::Circumflex, None) => Some(('\u{f4}', '\u{d4}')),  // ô Ô
        (Alphabet::O, Diacritic::Diaeresis, None) => Some(('\u{f6}', '\u{d6}')),  // ö Ö
        (Alphabet::O, Diacritic::Macron, Some(Diacritic::Acute)) => Some(('\u{1e53}', '\u{1e52}')),  // ṓ Ṓ
        (Alphabet::O, Diacritic::Macron, Some(Diacritic::Grave)) => Some(('\u{1e51}', '\u{1e50}')),  // ṑ Ṑ
        (Alphabet::O, Diacritic::Circumflex, Some(Diacritic::Acute)) => Some(('\u{1ed1}', '\u{1ed0}')),  // ố Ố
        (Alphabet::O, Diacritic::Circumflex, Some(Diacritic::Grave)) => Some(('\u{1ed3}', '\u{1ed2}')),  // ồ Ồ
        (Alphabet::O, Diacritic::Diaeresis, Some(Diacritic::Macron)) => Some(('\u{22b}', '\u{22a}')),  // ȫ Ȫ
        (Alphabet::P, Diacritic::Acute, None) => Some(('\u{1e55}', '\u{1e54}')),  // ṕ Ṕ
        (Alphabet::R, Diacritic::Acute, None) => Some(('\u{155}', '\u{154}')),  // ŕ Ŕ
        (Alphabet::R, Diacritic::Caron, None) => Some(('\u{159}', '\u{158}')),  // ř Ř
        (Alphabet::S, Diacritic::Acute, None) => Some(('\u{15b}', '\u{15a}')),  // ś Ś
        (Alphabet::S, Diacritic::Caron, None) => Some(('\u{161}', '\u{160}')),  // š Š
        (Alphabet::S, Diacritic::Circumflex, None) => Some(('\u{15d}', '\u{15c}')),  // ŝ Ŝ
        (Alphabet::T, Diacritic::Caron, None) => Some(('\u{165}', '\u{164}')),  // ť Ť
        (Alphabet::U, Diacritic::Macron, None) => Some(('\u{16b}', '\u{16a}')),  // ū Ū
        (Alphabet::U, Diacritic::Acute, None) => Some(('\u{fa}', '\u{da}')),  // ú Ú
        (Alphabet::U, Diacritic::Caron, None) => Some(('\u{1d4}', '\u{1d3}')),  // ǔ Ǔ
        (Alphabet::U, Diacritic::Grave, None) => Some(('\u{f9}', '\u{d9}')),  // ù Ù
        (Alphabet::U, Diacritic::Circumflex, None) => Some(('\u{fb}', '\u{db}')),  // û Û
        (Alphabet::U, Diacritic::Diaeresis, None) => Some(('\u{fc}', '\u{dc}')),  // ü Ü
        (Alphabet::U, Diacritic::Macron, Some(Diacritic::Diaeresis)) => Some(('\u{1e7b}', '\u{1e7a}')),  // ṻ Ṻ
        (Alphabet::U, Diacritic::Diaeresis, Some(Diacritic::Macron)) => Some(('\u{1d6}', '\u{1d5}')),  // ǖ Ǖ
        (Alphabet::U, Diacritic::Diaeresis, Some(Diacritic::Acute)) => Some(('\u{1d8}', '\u{1d7}')),  // ǘ Ǘ
        (Alphabet::U, Diacritic::Diaeresis, Some(Diacritic::Caron)) => Some(('\u{1da}', '\u{1d9}')),  // ǚ Ǚ
        (Alphabet::U, Diacritic::Diaeresis, Some(Diacritic::Grave)) => Some(('\u{1dc}', '\u{1db}')),  // ǜ Ǜ
        (Alphabet::W, Diacritic::Acute, None) => Some(('\u{1e83}', '\u{1e82}')),  // ẃ Ẃ
        (Alphabet::W, Diacritic::Grave, None) => Some(('\u{1e81}', '\u{1e80}')),  // ẁ Ẁ
        (Alphabet::W, Diacritic::Circumflex, None) => Some(('\u{175}', '\u{174}')),  // ŵ Ŵ
        (Alphabet::W, Diacritic::Diaeresis, None) => Some(('\u{1e85}', '\u{1e84}')),  // ẅ Ẅ
        (Alphabet::X, Diacritic::Diaeresis, None) => Some(('\u{1e8d}', '\u{1e8c}')),  // ẍ Ẍ
        (Alphabet::Y, Diacritic::Macron, None) => Some(('\u{233}', '\u{232}')),  // ȳ Ȳ
        (Alphabet::Y, Diacritic::Acute, None) => Some(('\u{fd}', '\u{dd}')),  // ý Ý
        (Alphabet::Y, Diacritic::Grave, None) => Some(('\u{1ef3}', '\u{1ef2}')),  // ỳ Ỳ
        (Alphabet::Y, Diacritic::Circumflex, None) => Some(('\u{177}', '\u{176}')),  // ŷ Ŷ
        (Alphabet::Y, Diacritic::Diaeresis, None) => Some(('\u{ff}', '\u{178}')),  // ÿ Ÿ
        (Alphabet::Z, Diacritic::Acute, None) => Some(('\u{17a}', '\u{179}')),  // ź Ź
        (Alphabet::Z, Diacritic::Caron, None) => Some(('\u{17e}', '\u{17d}')),  // ž Ž
        (Alphabet::Z, Diacritic::Circumflex, None) => Some(('\u{1e91}', '\u{1e90}')),  // ẑ Ẑ
        _ => None,
    }
}

/// The character that Unicode has for a marked letter in its small form only.
pub open spec fn precomposed_small(
    alphabet: Alphabet,
    first: Diacritic,
    second: Option<Diacritic>,
) -> Option<char> {
    match (alphabet, first, second) {
        (Alphabet::J, Diacritic::Caron, None) => Some('\u{1f0}'),  // ǰ
        (Alphabet::T, Diacritic::Diaeresis, None) => Some('\u{1e97}'),  // ẗ
        _ => None,
    }
}

/// The single character that writes a marked letter, capital or small, where Unicode has
/// one: the character whose canonical decomposition is the letter followed by the
/// combining characters of the marks.
pub open spec fn precomposed(
    alphabet: Alphabet,
    capitalized: bool,
    first: Diacritic,
    second: Option<Diacritic>,
) -> Option<char> {
    match precomposed_pair(alphabet, first, second) {
        Some((small, capital)) => Some(if capitalized {
            capital
        } else {
            small
        }),
        None => if capitalized {
            None
        } else {
            precomposed_small(alphabet, first, second)
        },
    }
}

/// The letter and the marks that the single character `c` writes, if it writes a marked
/// letter.
pub open spec fn decomposition(c: char) -> Option<(Alphabet, bool, Diacritic, Option<Diacritic>)> {
    if exists|l: (Alphabet, bool, Diacritic, Option<Diacritic>)|
        precomposed(l.0, l.1, l.2, l.3) == Some(c) {
        Some(
            choose|l: (Alphabet, bool, Diacritic, Option<Diacritic>)|
                precomposed(l.0, l.1, l.2, l.3) == Some(c),
        )
    } else {
        None
    }
}

/// Takes a single character that writes a marked letter apart.
pub fn decompose(c: char) -> (marked: Option<(Alphabet, bool, Diacritic, Option<Diacritic>)>)
    ensures
        marked == decomposition(c),
{
    let marked = match c {
        '\u{101}' => Some((Alphabet::A, false, Diacritic::Macron, None)),
        '\u{100}' => Some((Alphabet::A, true, Diacritic::Macron, None)),
        '\u{e1}' => Some((Alphabet::A, false, Diacritic::Acute, None)),
        '\u{c1}' => Some((Alphabet::A, true, Diacritic::Acute, None)),
        '\u{1ce}' => Some((Alphabet::A, false, Diacritic::Caron, None)),
        '\u{1cd}' => Some((Alphabet::A, true, Diacritic::Caron, None)),
        '\u{e0}' => Some((Alphabet::A, false, Diacritic::Grave, None)),
        '\u{c0}' => Some((Alphabet::A, true, Diacritic::Grave, None)),
        '\u{e2}' => Some((Alphabet::A, false, Diacritic::Circumflex, None)),
        '\u{c2}' => Some((Alphabet::A, true, Diacritic::Circumflex, None)),
        '\u{e4}' => Some((Alphabet::A, false, Diacritic::Diaeresis, None)),
        '\u{c4}' => Some((Alphabet::A, true, Diacritic::Diaeresis, None)),
        '\u{1ea5}' => Some((Alphabet::A, false, Diacritic::Circumflex, Some(Diacritic::Acute))),
        '\u{1ea4}' => Some((Alphabet::A, true, Diacritic::Circumflex, Some(Diacritic::Acute))),
        '\u{1ea7}' => Some((Alphabet::A, false, Diacritic::Circumflex, Some(Diacritic::Grave))),
        '\u{1ea6}' => Some((Alphabet::A, true, Diacritic::Circumflex, Some(Diacritic::Grave))),
        '\u{1df}' => Some((Alphabet::A, false, Diacritic::Diaeresis, Some(Diacritic::Macron))),
        '\u{1de}' => Some((Alphabet::A, true, Diacritic::Diaeresis, Some(Diacritic::Macron))),
        '\u{107}' => Some((Alphabet::C, false, Diacritic::Acute, None)),
        '\u{106}' => Some((Alphabet::C, true, Diacritic::Acute, None)),
        '\u{10d}' => Some((Alphabet::C, false, Diacritic::Caron, None)),
        '\u{10c}' => Some((Alphabet::C, true, Diacritic::Caron, None)),
        '\u{109}' => Some((Alphabet::C, false, Diacritic::Circumflex, None)),
        '\u{108}' => Some((Alphabet::C, true, Diacritic::Circumflex, None)),
        '\u{10f}' => Some((Alphabet::D, false, Diacritic::Caron, None)),
        '\u{10e}' => Some((Alphabet::D, true, Diacritic::Caron, None)),
        '\u{113}' => Some((Alphabet::E, false, Diacritic::Macron, None)),
        '\u{112}' => Some((Alphabet::E, true, Diacritic::Macron, None)),
        '\u{e9}' => Some((Alphabet::E, false, Diacritic::Acute, None)),
        '\u{c9}' => Some((Alphabet::E, true, Diacritic::Acute, None)),
        '\u{11b}' => Some((Alphabet::E, false, Diacritic::Caron, None)),
        '\u{11a}' => Some((Alphabet::E, true, Diacritic::Caron, None)),
        '\u{e8}' => Some((Alphabet::E, false, Diacritic::Grave, None)),
        '\u{c8}' => Some((Alphabet::E, true, Diacritic::Grave, None)),
        '\u{ea}' => Some((Alphabet::E, false, Diacritic::Circumflex, None)),
        '\u{ca}' => Some((Alphabet::E, true, Diacritic::Circumflex, None)),
        '\u{eb}' => Some((Alphabet::E, false, Diacritic::Diaeresis, None)),
        '\u{cb}' => Some((Alphabet::E, true, Diacritic::Diaeresis, None)),
        '\u{1e17}' => Some((Alphabet::E, false, Diacritic::Macron, Some(Diacritic::Acute))),
        '\u{1e16}' => Some((Alphabet::E, true, Diacritic::Macron, Some(Diacritic::Acute))),
        '\u{1e15}' => Some((Alphabet::E, false, Diacritic::Macron, Some(Diacritic::Grave))),
        '\u{1e14}' => Some((Alphabet::E, true, Diacritic::Macron, Some(Diacritic::Grave))),
        '\u{1ebf}' => Some((Alphabet::E, false, Diacritic::Circumflex, Some(Diacritic::Acute))),
        '\u{1ebe}' => Some((Alphabet::E, true, Diacritic::Circumflex, Some(Diacritic::Acute))),
        '\u{1ec1}' => Some((Alphabet::E, false, Diacritic::Circumflex, Some(Diacritic::Grave))),
        '\u{1ec0}' => Some((Alphabet::E, true, Diacritic::Circumflex, Some(Diacritic::Grave))),
        '\u{1e21}' => Some((Alphabet::G, false, Diacritic::Macron, None)),
        '\u{1e20}' => Some((Alphabet::G, true, Diacritic::Macron, None)),
        '\u{1f5}' => Some((Alphabet::G, false, Diacritic::Acute, None)),
        '\u{1f4}' => Some((Alphabet::G, true, Diacritic::Acute, None)),
        '\u{1e7}' => Some((Alphabet::G, false, Diacritic::Caron, None)),
        '\u{1e6}' => Some((Alphabet::G, true, Diacritic::Caron, None)),
        '\u{11d}' => Some((Alphabet::G, false, Diacritic::Circumflex, None)),
        '\u{11c}' => Some((Alphabet::G, true, Diacritic::Circumflex, None)),
        '\u{21f}' => Some((Alphabet::H, false, Diacritic::Caron, None)),
        '\u{21e}' => Some((Alphabet::H, true, Diacritic::Caron, None)),
        '\u{125}' => Some((Alphabet::H, false, Diacritic::Circumflex, None)),
        '\u{124}' => Some((Alphabet::H, true, Diacritic::Circumflex, None)),
        '\u{1e27}' => Some((Alphabet::H, false, Diacritic::Diaeresis, None)),
        '\u{1e26}' => Some((Alphabet::H, true, Diacritic::Diaeresis, None)),
        '\u{12b}' => Some((Alphabet::I, false, Diacritic::Macron, None)),
        '\u{12a}' => Some((Alphabet::I, true, Diacritic::Macron, None)),
        '\u{ed}' => Some((Alphabet::I, false, Diacritic::Acute, None)),
        '\u{cd}' => Some((Alphabet::I, true, Diacritic::Acute, None)),
        '\u{1d0}' => Some((Alphabet::I, false, Diacritic::Caron, None)),
        '\u{1cf}' => Some((Alphabet::I, true, Diacritic::Caron, None)),
        '\u{ec}' => Some((Alphabet::I, false, Diacritic::Grave, None)),
        '\u{cc}' => Some((Alphabet::I, true, Diacritic::Grave, None)),
        '\u{ee}' => Some((Alphabet::I, false, Diacritic::Circumflex, None)),
        '\u{ce}' => Some((Alphabet::I, true, Diacritic::Circumflex, None)),
        '\u{ef}' => Some((Alphabet::I, false, Diacritic::Diaeresis, None)),
        '\u{cf}' => Some((Alphabet::I, true, Diacritic::Diaeresis, None)),
        '\u{1e2f}' => Some((Alphabet::I, false, Diacritic::Diaeresis, Some(Diacritic::Acute))),
        '\u{1e2e}' => Some((Alphabet::I, true, Diacritic::Diaeresis, Some(Diacritic::Acute))),
        '\u{1f0}' => Some((Alphabet::J, false, Diacritic::Caron, None)),
        '\u{135}' => Some((Alphabet::J, false, Diacritic::Circumflex, None)),
        '\u{134}' => Some((Alphabet::J, true, Diacritic::Circumflex, None)),
        '\u{1e31}' => Some((Alphabet::K, false, Diacritic::Acute, None)),
        '\u{1e30}' => Some((Alphabet::K, true, Diacritic::Acute, None)),
        '\u{1e9}' => Some((Alphabet::K, false, Diacritic::Caron, None)),
        '\u{1e8}' => Some((Alphabet::K, true, Diacritic::Caron, None)),
        '\u{13a}' => Some((Alphabet::L, false, Diacritic::Acute, None)),
        '\u{139}' => Some((Alphabet::L, true, Diacritic::Acute, None)),
        '\u{13e}' => Some((Alphabet::L, false, Diacritic::Caron, None)),
        '\u{13d}' => Some((Alphabet::L, true, Diacritic::Caron, None)),
        '\u{1e3f}' => Some((Alphabet::M, false, Diacritic::Acute, None)),
        '\u{1e3e}' => Some((Alphabet::M, true, Diacritic::Acute, None)),
        '\u{144}' => Some((Alphabet::N, false, Diacritic::Acute, None)),
        '\u{143}' => Some((Alphabet::N, true, Diacritic::Acute, None)),
        '\u{148}' => Some((Alphabet::N, false, Diacritic::Caron, None)),
        '\u{147}' => Some((Alphabet::N, true, Diacritic::Caron, None)),
        '\u{1f9}' => Some((Alphabet::N, false, Diacritic::Grave, None)),
        '\u{1f8}' => Some((Alphabet::N, true, Diacritic::Grave, None)),
        '\u{14d}' => Some((Alphabet::O, false, Diacritic::Macron, None)),
        '\u{14c}' => Some((Alphabet::O, true, Diacritic::Macron, None)),
        '\u{f3}' => Some((Alphabet::O, false, Diacritic::Acute, None)),
        '\u{d3}' => Some((Alphabet::O, true, Diacritic::Acute, None)),
        '\u{1d2}' => Some((Alphabet::O, false, Diacritic::Caron, None)),
        '\u{1d1}' => Some((Alphabet::O, true, Diacritic::Caron, None)),
        '\u{f2}' => Some((Alphabet::O, false, Diacritic::Grave, None)),
        '\u{d2}' => Some((Alphabet::O, true, Diacritic::Grave, None)),
        '\u{f4}' => Some((Alphabet::O, false, Diacritic::Circumflex, None)),
        '\u{d4}' => Some((Alphabet::O, true, Diacritic::Circumflex, None)),
        '\u{f6}' => Some((Alphabet::O, false, Diacritic::Diaeresis, None)),
        '\u{d6}' => Some((Alphabet::O, true, Diacritic::Diaeresis, None)),
        '\u{1e53}' => Some((Alphabet::O, false, Diacritic::Macron, Some(Diacritic::Acute))),
        '\u{1e52}' => Some((Alphabet::O, true, Diacritic::Macron, Some(Diacritic::Acute))),
        '\u{1e51}' => Some((Alphabet::O, false, Diacritic::Macron, Some(Diacritic::Grave))),
        '\u{1e50}' => Some((Alphabet::O, true, Diacritic::Macron, Some(Diacritic::Grave))),
        '\u{1ed1}' => Some((Alphabet::O, false, Diacritic::Circumflex, Some(Diacritic::Acute))),
        '\u{1ed0}' => Some((Alphabet::O, true, Diacritic::Circumflex, Some(Diacritic::Acute))),
        '\u{1ed3}' => Some((Alphabet::O, false, Diacritic::Circumflex, Some(Diacritic::Grave))),
        '\u{1ed2}' => Some((Alphabet::O, true, Diacritic::Circumflex, Some(Diacritic::Grave))),
        '\u{22b}' => Some((Alphabet::O, false, Diacritic::Diaeresis, Some(Diacritic::Macron))),
        '\u{22a}' => Some((Alphabet::O, true, Diacritic::Diaeresis, Some(Diacritic::Macron))),
        '\u{1e55}' => Some((Alphabet::P, false, Diacritic::Acute, None)),
        '\u{1e54}' => Some((Alphabet::P, true, Diacritic::Acute, None)),
        '\u{155}' => Some((Alphabet::R, false, Diacritic::Acute, None)),
        '\u{154}' => Some((Alphabet::R, true, Diacritic::Acute, None)),
        '\u{159}' => Some((Alphabet::R, false, Diacritic::Caron, None)),
        '\u{158}' => Some((Alphabet::R, true, Diacritic::Caron, None)),
        '\u{15b}' => Some((Alphabet::S, false, Diacritic::Acute, None)),
        '\u{15a}' => Some((Alphabet::S, true, Diacritic::Acute, None)),
        '\u{161}' => Some((Alphabet::S, false, Diacritic::Caron, None)),
        '\u{160}' => Some((Alphabet::S, true, Diacritic::Caron, None)),
        '\u{15d}' => Some((Alphabet::S, false, Diacritic::Circumflex, None)),
        '\u{15c}' => Some((Alphabet::S, true, Diacritic::Circumflex, None)),
        '\u{165}' => Some((Alphabet::T, false, Diacritic::Caron, None)),
        '\u{164}' => Some((Alphabet::T, true, Diacritic::Caron, None)),
        '\u{1e97}' => Some((Alphabet::T, false, Diacritic::Diaeresis, None)),
        '\u{16b}' => Some((Alphabet::U, false, Diacritic::Macron, None)),
        '\u{16a}' => Some((Alphabet::U, true, Diacritic::Macron, None)),
        '\u{fa}' => Some((Alphabet::U, false, Diacritic::Acute, None)),
        '\u{da}' => Some((Alphabet::U, true, Diacritic::Acute, None)),
        '\u{1d4}' => Some((Alphabet::U, false, Diacritic::Caron, None)),
        '\u{1d3}' => Some((Alphabet::U, true, Diacritic::Caron, None)),
        '\u{f9}' => Some((Alphabet::U, false, Diacritic::Grave, None)),
        '\u{d9}' => Some((Alphabet::U, true, Diacritic::Grave, None)),
        '\u{fb}' => Some((Alphabet::U, false, Diacritic::Circumflex, None)),
        '\u{db}' => Some((Alphabet::U, true, Diacritic::Circumflex, None)),
        '\u{fc}' => Some((Alphabet::U, false, Diacritic::Diaeresis, None)),
        '\u{dc}' => Some((Alphabet::U, true, Diacritic::Diaeresis, None)),
        '\u{1e7b}' => Some((Alphabet::U, false, Diacritic::Macron, Some(Diacritic::Diaeresis))),
        '\u{1e7a}' => Some((Alphabet::U, true, Diacritic::Macron, Some(Diacritic::Diaeresis))),
        '\u{1d6}' => Some((Alphabet::U, false, Diacritic::Diaeresis, Some(Diacritic::Macron))),
        '\u{1d5}' => Some((Alphabet::U, true, Diacritic::Diaeresis, Some(Diacritic::Macron))),
        '\u{1d8}' => Some((Alphabet::U, false, Diacritic::Diaeresis, Some(Diacritic::Acute))),
        '\u{1d7}' => Some((Alphabet::U, true, Diacritic::Diaeresis, Some(Diacritic::Acute))),
        '\u{1da}' => Some((Alphabet::U, false, Diacritic::Diaeresis, Some(Diacritic::Caron))),
        '\u{1d9}' => Some((Alphabet::U, true, Diacritic::Diaeresis, Some(Diacritic::Caron))),
        '\u{1dc}' => Some((Alphabet::U, false, Diacritic::Diaeresis, Some(Diacritic::Grave))),
        '\u{1db}' => Some((Alphabet::U, true, Diacritic::Diaeresis, Some(Diacritic::Grave))),
        '\u{1e83}' => Some((Alphabet::W, false, Diacritic::Acute, None)),
        '\u{1e82}' => Some((Alphabet::W, true, Diacritic::Acute, None)),
        '\u{1e81}' => Some((Alphabet::W, false, Diacritic::Grave, None)),
        '\u{1e80}' => Some((Alphabet::W, true, Diacritic::Grave, None)),
        '\u{175}' => Some((Alphabet::W, false, Diacritic::Circumflex, None)),
        '\u{174}' => Some((Alphabet::W, true, Diacritic::Circumflex, None)),
        '\u{1e85}' => Some((Alphabet::W, false, Diacritic::Diaeresis, None)),
        '\u{1e84}' => Some((Alphabet::W, true, Diacritic::Diaeresis, None)),
        '\u{1e8d}' => Some((Alphabet::X, false, Diacritic::Diaeresis, None)),
        '\u{1e8c}' => Some((Alphabet::X, true, Diacritic::Diaeresis, None)),
        '\u{233}' => Some((Alphabet::Y, false, Diacritic::Macron, None)),
        '\u{232}' => Some((Alphabet::Y, true, Diacritic::Macron, None)),
        '\u{fd}' => Some((Alphabet::Y, false, Diacritic::Acute, None)),
        '\u{dd}' => Some((Alphabet::Y, true, Diacritic::Acute, None)),
        '\u{1ef3}' => Some((Alphabet::Y, false, Diacritic::Grave, None)),
        '\u{1ef2}' => Some((Alphabet::Y, true, Diacritic::Grave, None)),
        '\u{177}' => Some((Alphabet::Y, false, Diacritic::Circumflex, None)),
        '\u{176}' => Some((Alphabet::Y, true, Diacritic::Circumflex, None)),
        '\u{ff}' => Some((Alphabet::Y, false, Diacritic::Diaeresis, None)),
        '\u{178}' => Some((Alphabet::Y, true, Diacritic::Diaeresis, None)),
        '\u{17a}' => Some((Alphabet::Z, false, Diacritic::Acute, None)),
        '\u{179}' => Some((Alphabet::Z, true, Diacritic::Acute, None)),
        '\u{17e}' => Some((Alphabet::Z, false, Diacritic::Caron, None)),
        '\u{17d}' => Some((Alphabet::Z, true, Diacritic::Caron, None)),
        '\u{1e91}' => Some((Alphabet::Z, false, Diacritic::Circumflex, None)),
        '\u{1e90}' => Some((Alphabet::Z, true, Diacritic::Circumflex, None)),
        _ => None,
    };
    proof {
        if let Some(l) = marked {
            assert(precomposed(l.0, l.1, l.2, l.3) == Some(c));
        }
    }
    marked
}

/// A character of the alphabet writes one letter in one case.
pub proof fn lemma_glyph_read_back(alphabet: Alphabet, capitalized: bool)
    ensures
        Alphabet::of_glyph(alphabet.glyph(capitalized)) == Some((alphabet, capitalized)),
{
    let l = (alphabet, capitalized);
    assert(l.0.glyph(l.1) == alphabet.glyph(capitalized));
}

/// A combining character writes one mark.
pub proof fn lemma_combining_read_back(mark: Diacritic)
    ensures
        Diacritic::of_combining(mark.combining()) == Some(mark),
{
}

/// A character that writes a marked letter is taken apart into that letter and its marks.
pub proof fn lemma_precomposed_read_back(
    alphabet: Alphabet,
    capitalized: bool,
    first: Diacritic,
    second: Option<Diacritic>,
)
    requires
        precomposed(alphabet, capitalized, first, second) is Some,
    ensures
        decomposition(precomposed(alphabet, capitalized, first, second)->0) == Some(
            (alphabet, capitalized, first, second),
        ),
        Alphabet::of_glyph(precomposed(alphabet, capitalized, first, second)->0) is None,
{
    let l = (alphabet, capitalized, first, second);
    assert(precomposed(l.0, l.1, l.2, l.3) is Some);
}

} // verus!
