//! The tokens of a text: what a grapheme cluster is, and how a letter is shown.

use crate::glyph::{
    decompose, decomposition, lemma_combining_read_back, lemma_glyph_read_back,
    lemma_precomposed_read_back, precomposed, Alphabet, Diacritic,
};
use vstd::prelude::*;
use vstd::string::StrSliceExecFns;

verus! {

/// A letter with the marks it carries, in the order in which they are written.
pub struct Letter {
    pub alphabet: Alphabet,
    pub diacritics: Seq<Diacritic>,
    pub capitalized: bool,
}

/// What one grapheme cluster of the input is.
pub enum Token {
    Alph(Letter),
    Punctuation(Seq<char>),
    Space(Seq<char>),
}

/// A letter of the input: which letter, its marks in the order written, and whether it
/// was written as a capital.
#[derive(Clone, PartialEq, Eq, Debug, Hash)]
pub struct Alph {
    pub alphabet: Alphabet,
    pub diacritics: Vec<Diacritic>,
    pub capitalized: bool,
}

/// One grapheme cluster of the input, classified.
#[derive(Clone, PartialEq, Eq, Debug, Hash)]
pub enum PinyinToken {
    Alph(Alph),
    Punctuation(String),
    Space(String),
}

impl View for Alph {
    type V = Letter;

    open spec fn view(&self) -> Letter {
        Letter {
            alphabet: self.alphabet,
            diacritics: self.diacritics@,
            capitalized: self.capitalized,
        }
    }
}

impl View for PinyinToken {
    type V = Token;

    open spec fn view(&self) -> Token {
        match self {
            PinyinToken::Alph(alph) => Token::Alph(alph@),
            PinyinToken::Punctuation(text) => Token::Punctuation(text@),
            PinyinToken::Space(text) => Token::Space(text@),
        }
    }
}

impl Token {
    /// Whether the token is punctuation or white space: text that is handed on as it was
    /// written, or dropped.
    pub open spec fn is_passthrough(self) -> bool {
        self is Punctuation || self is Space
    }

    /// The text of punctuation or white space.
    pub open spec fn text(self) -> Seq<char>
        recommends
            self.is_passthrough(),
    {
        match self {
            Token::Punctuation(text) => text,
            Token::Space(text) => text,
            Token::Alph(_) => Seq::empty(),
        }
    }
}

/// Whether every token of `tokens` is punctuation or white space.
pub open spec fn only_passthrough(tokens: Seq<Token>) -> bool {
    forall|i: int| 0 <= i < tokens.len() ==> (#[trigger] tokens[i]).is_passthrough()
}

/// The text of each token of `tokens`, where they are punctuation and white space.
pub open spec fn texts(tokens: Seq<Token>) -> Seq<Seq<char>>
    recommends
        only_passthrough(tokens),
{
    tokens.map_values(|token: Token| token.text())
}

impl Letter {
    /// Whether the marks can stand on one letter together: a circumflex stands alone.
    pub open spec fn is_valid(self) -> bool {
        self.diacritics.contains(Diacritic::Circumflex) ==> self.diacritics
            == seq![Diacritic::Circumflex]
    }

    /// The text that shows the letter: its character, a capital only where the letter was
    /// written as one and capitals are preserved, and after it the combining character of
    /// each mark in the order in which the letter carries them. Strictness changes nothing
    /// in how a single letter is shown.
    pub open spec fn render(self, preserve_capitalization: bool, strict: bool) -> Seq<char> {
        seq![self.alphabet.glyph(self.capitalized && preserve_capitalization)]
            + self.diacritics.map_values(|d: Diacritic| d.combining())
    }
}

/// `String::push` of the standard library: it appends the character to the end of the
/// string and leaves what was there as it is.
pub assume_specification[ String::push ](s: &mut String, ch: char)
    ensures
        final(s)@ == old(s)@.push(ch),
;

impl Alph {
    /// Shows the letter as text.
    pub fn to_str(&self, preserve_capitalization: bool, strict: bool) -> (text: String)
        ensures
            text@ == self@.render(preserve_capitalization, strict),
    {
        let mut text = String::new();
        text.push(self.alphabet.to_glyph(self.capitalized && preserve_capitalization));
        let ghost head = text@;
        let n: usize = self.diacritics.len();
        let mut i: usize = 0;
        while i < n
            invariant
                i <= n,
                n == self.diacritics@.len(),
                text@ == head + self.diacritics@.take(i as int).map_values(
                    |d: Diacritic| d.combining(),
                ),
            decreases n - i,
        {
            text.push(self.diacritics[i].to_combining());
            assert(self.diacritics@.take(i + 1) =~= self.diacritics@.take(i as int).push(
                self.diacritics@[i as int],
            ));
            i = i + 1;
        }
        assert(self.diacritics@.take(n as int) =~= self.diacritics@);
        text
    }
}

/// Whether `c` has the Unicode property White_Space.
pub open spec fn is_white_space(c: char) -> bool {
    let n = c as u32;
    ||| 0x9 <= n <= 0xd
    ||| n == 0x20
    ||| n == 0x85
    ||| n == 0xa0
    ||| n == 0x1680
    ||| 0x2000 <= n <= 0x200a
    ||| n == 0x2028
    ||| n == 0x2029
    ||| n == 0x202f
    ||| n == 0x205f
    ||| n == 0x3000
}

/// The letter that the single character `c` writes, with the marks that are part of the
/// character itself.
pub open spec fn letter_of(c: char) -> Option<Letter> {
    match Alphabet::of_glyph(c) {
        Some((alphabet, capitalized)) => Some(
            Letter { alphabet, diacritics: Seq::empty(), capitalized },
        ),
        None => match decomposition(c) {
            Some((alphabet, capitalized, first, None)) => Some(
                Letter { alphabet, diacritics: seq![first], capitalized },
            ),
            Some((alphabet, capitalized, first, Some(second))) => Some(
                Letter { alphabet, diacritics: seq![first, second], capitalized },
            ),
            None => None,
        },
    }
}

/// Whether every character of `tail` is a combining mark of the alphabet.
pub open spec fn all_marks(tail: Seq<char>) -> bool {
    forall|i: int| 0 <= i < tail.len() ==> (#[trigger] Diacritic::of_combining(tail[i])) is Some
}

/// The marks that the combining characters of `tail` write.
pub open spec fn marks_of(tail: Seq<char>) -> Seq<Diacritic> {
    tail.map_values(|c: char| Diacritic::of_combining(c)->0)
}

/// Whether every character of `cluster` is white space.
pub open spec fn all_white_space(cluster: Seq<char>) -> bool {
    forall|i: int| 0 <= i < cluster.len() ==> is_white_space(#[trigger] cluster[i])
}

/// The token that a grapheme cluster is.
///
/// A cluster is a letter where its first character writes a letter of the alphabet, alone
/// or with marks, and every character after it is a combining mark; the letter then
/// carries the marks of the first character followed by the combining ones. A cluster of
/// white space is a space. Every other cluster is punctuation: it is kept as it was
/// written and carries no mark.
pub open spec fn classify(cluster: Seq<char>) -> Token {
    if cluster.len() > 0 && letter_of(cluster[0]) is Some && all_marks(cluster.skip(1)) {
        let head = letter_of(cluster[0])->0;
        Token::Alph(
            Letter {
                alphabet: head.alphabet,
                diacritics: head.diacritics + marks_of(cluster.skip(1)),
                capitalized: head.capitalized,
            },
        )
    } else if cluster.len() > 0 && all_white_space(cluster) {
        Token::Space(cluster)
    } else {
        Token::Punctuation(cluster)
    }
}

/// Says whether `c` is white space.
pub fn is_space_char(c: char) -> (b: bool)
    ensures
        b == is_white_space(c),
{
    let n: u32 = c as u32;
    (0x9 <= n && n <= 0xd) || n == 0x20 || n == 0x85 || n == 0xa0 || n == 0x1680 || (0x2000 <= n
        && n <= 0x200a) || n == 0x2028 || n == 0x2029 || n == 0x202f || n == 0x205f || n
        == 0x3000
}

/// Reads the letter that a single character writes.
fn read_letter(c: char) -> (letter: Option<Alph>)
    ensures
        match letter {
            Some(alph) => letter_of(c) == Some(alph@),
            None => letter_of(c) is None,
        },
{
    match Alphabet::from_glyph(c) {
        Some((alphabet, capitalized)) => Some(
            Alph { alphabet, diacritics: Vec::new(), capitalized },
        ),
        None => match decompose(c) {
            Some((alphabet, capitalized, first, second)) => {
                let mut diacritics: Vec<Diacritic> = Vec::new();
                diacritics.push(first);
                if let Some(mark) = second {
                    diacritics.push(mark);
                }
                assert(second is None ==> diacritics@ =~= seq![first]);
                assert(second is Some ==> diacritics@ =~= seq![first, second->0]);
                Some(Alph { alphabet, diacritics, capitalized })
            },
            None => None,
        },
    }
}

/// Reads the combining marks of `s` from its second character on and appends them to
/// `marks`, as long as it finds marks. Says whether it came to the end.
fn read_marks(s: &str, marks: &mut Vec<Diacritic>) -> (complete: bool)
    requires
        s@.len() > 0,
    ensures
        complete == all_marks(s@.skip(1)),
        complete ==> final(marks)@ == old(marks)@ + marks_of(s@.skip(1)),
{
    let n: usize = s.unicode_len();
    let ghost tail = s@.skip(1);
    let ghost before = marks@;
    let mut i: usize = 1;
    while i < n
        invariant
            1 <= i <= n,
            n == s@.len(),
            tail == s@.skip(1),
            all_marks(tail.take(i - 1)),
            marks@ == before + marks_of(tail.take(i - 1)),
        decreases n - i,
    {
        match Diacritic::from_combining(s.get_char(i)) {
            Some(mark) => {
                marks.push(mark);
                assert(tail.take(i as int) =~= tail.take(i - 1).push(tail[i - 1]));
                assert(marks_of(tail.take(i as int)) =~= marks_of(tail.take(i - 1)).push(mark));
                i = i + 1;
            },
            None => {
                assert(Diacritic::of_combining(tail[i - 1]) is None);
                return false;
            },
        }
    }
    assert(tail.take(n - 1) =~= tail);
    true
}

/// Says whether every character of `s` is white space.
fn is_space(s: &str) -> (b: bool)
    ensures
        b == all_white_space(s@),
{
    let n: usize = s.unicode_len();
    let mut i: usize = 0;
    while i < n
        invariant
            i <= n,
            n == s@.len(),
            all_white_space(s@.take(i as int)),
        decreases n - i,
    {
        if !is_space_char(s.get_char(i)) {
            return false;
        }
        assert(s@.take(i + 1) =~= s@.take(i as int).push(s@[i as int]));
        i = i + 1;
    }
    assert(s@.take(n as int) =~= s@);
    true
}

/// Classifies one grapheme cluster.
pub fn to_token(s: &str) -> (token: PinyinToken)
    ensures
        token@ == classify(s@),
{
    if s.unicode_len() == 0 {
        return PinyinToken::Punctuation(s.to_owned());
    }
    if let Some(mut alph) = read_letter(s.get_char(0)) {
        let complete = read_marks(s, &mut alph.diacritics);
        if complete {
            return PinyinToken::Alph(alph);
        }
    }
    if is_space(s) {
        PinyinToken::Space(s.to_owned())
    } else {
        PinyinToken::Punctuation(s.to_owned())
    }
}

/// Punctuation and white space keep the text of their cluster.
pub proof fn lemma_passthrough_keeps_text(cluster: Seq<char>)
    ensures
        classify(cluster).is_passthrough() ==> classify(cluster).text() == cluster,
{
}

/// A character of the alphabet is read as its letter without a mark.
pub proof fn lemma_letter_read_back(alphabet: Alphabet, capitalized: bool)
    ensures
        letter_of(alphabet.glyph(capitalized)) == Some(
            Letter { alphabet, diacritics: Seq::empty(), capitalized },
        ),
{
    lemma_glyph_read_back(alphabet, capitalized);
}

/// A single character that writes a marked letter is the same token as the letter followed
/// by the combining characters of its marks.
pub proof fn lemma_marked_character_read_back(
    alphabet: Alphabet,
    capitalized: bool,
    first: Diacritic,
    second: Option<Diacritic>,
)
    requires
        precomposed(alphabet, capitalized, first, second) is Some,
    ensures
        ({
            let marks = match second {
                Some(mark) => seq![first, mark],
                None => seq![first],
            };
            let letter = Letter { alphabet, diacritics: marks, capitalized };
            &&& classify(seq![precomposed(alphabet, capitalized, first, second)->0])
                == Token::Alph(letter)
            &&& classify(letter.render(true, false)) == Token::Alph(letter)
        }),
{
    let c = precomposed(alphabet, capitalized, first, second)->0;
    let marks = match second {
        Some(mark) => seq![first, mark],
        None => seq![first],
    };
    lemma_precomposed_read_back(alphabet, capitalized, first, second);
    assert(seq![c].skip(1) =~= Seq::<char>::empty());
    assert(marks + marks_of(Seq::<char>::empty()) =~= marks);
    lemma_render_read_back(Letter { alphabet, diacritics: marks, capitalized }, true, false);
}

/// A letter that is shown as text and read again is the same letter with the same marks,
/// in the case in which it was shown.
pub proof fn lemma_render_read_back(letter: Letter, preserve_capitalization: bool, strict: bool)
    ensures
        classify(letter.render(preserve_capitalization, strict)) == Token::Alph(
            Letter { capitalized: letter.capitalized && preserve_capitalization, ..letter },
        ),
{
    let capitalized = letter.capitalized && preserve_capitalization;
    let text = letter.render(preserve_capitalization, strict);
    let tail = text.skip(1);
    lemma_letter_read_back(letter.alphabet, capitalized);
    assert(tail =~= letter.diacritics.map_values(|d: Diacritic| d.combining()));
    assert forall|i: int| 0 <= i < tail.len() implies Diacritic::of_combining(tail[i]) == Some(
        letter.diacritics[i],
    ) by {
        lemma_combining_read_back(letter.diacritics[i]);
    }
    assert(marks_of(tail) =~= letter.diacritics);
    assert(Seq::<Diacritic>::empty() + letter.diacritics =~= letter.diacritics);
}

} // verus!
