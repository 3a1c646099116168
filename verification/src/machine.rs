//! The parser as a state machine over tokens: its states, its steps, and what a call for
//! the next unit comes to.

use crate::config::PinyinParser;
use crate::glyph::{Alphabet, Diacritic};
use crate::pinyin_token::{texts, Letter, Token};
use vstd::prelude::*;

verus! {

/// One of the three letters that are an initial alone and, with `h` after them, the first
/// half of a digraph.
#[derive(Debug, Copy, Clone, PartialEq, Eq, Hash, Structural)]
pub enum ZCS {
    Z,
    C,
    S,
}

/// The initials of Pinyin, and `ZeroAEO` for a syllable that opens on `a`, `e` or `o`.
#[derive(Debug, Copy, Clone, PartialEq, Eq, Hash, Structural)]
pub enum SpellingInitial {
    B,
    P,
    M,
    F,
    D,
    T,
    N,
    L,
    G,
    K,
    H,
    J,
    Q,
    X,
    ZH,
    CH,
    SH,
    R,
    Z,
    C,
    S,
    Y,
    W,
    ZeroAEO,
}

/// How far the syllable at the read position has been recognised.
#[derive(Debug, Clone, Copy, PartialEq, Eq, Hash, Structural)]
pub enum ParserState {
    /// Nothing of a syllable has been read.
    BeforeWordInitial,
    /// The initial is settled.
    InitialParsed(SpellingInitial),
    /// `z`, `c` or `s` has been read; an `h` may follow.
    ZCSParsed(ZCS),
}

/// What the parser does not do yet.
#[derive(Debug, Clone, Copy, PartialEq, Eq, Hash, Structural)]
pub enum Unimplemented {
    /// A syllable that opens on `i`, `u` or eng.
    SyllableOpensOnRime,
    /// What follows a settled initial: the final and its tone.
    FinalAndTone,
}

/// What one step of the parser came to.
#[derive(Debug, Clone, PartialEq, Eq, Hash)]
pub enum Step<U> {
    /// No token is left and no syllable is under way.
    Finished,
    /// A unit of output.
    Unit(U),
    /// No output: a token was dropped, or the syllable under way came further.
    Pending,
    /// The step is not implemented; nothing was read and nothing changed.
    Failed(Unimplemented),
}

impl<U: View> View for Step<U> {
    type V = Step<U::V>;

    open spec fn view(&self) -> Step<U::V> {
        match self {
            Step::Finished => Step::Finished,
            Step::Unit(unit) => Step::Unit(unit@),
            Step::Pending => Step::Pending,
            Step::Failed(what) => Step::Failed(*what),
        }
    }
}

/// What a letter at the start of a syllable is.
pub enum Opening {
    /// An initial, settled by this letter alone.
    Initial(SpellingInitial),
    /// `z`, `c` or `s` without a mark: an initial alone, or a digraph with the next letter.
    Sibilant(ZCS),
    /// A marked letter that is a syllable by itself.
    Standalone,
    /// `a`, `e` or `o`: the syllable has no initial and the letter belongs to its final.
    Vowel,
    /// `i`, `u` or eng.
    Rime,
}

impl ZCS {
    /// The initial that the letter is alone.
    pub open spec fn plain(self) -> SpellingInitial {
        match self {
            ZCS::Z => SpellingInitial::Z,
            ZCS::C => SpellingInitial::C,
            ZCS::S => SpellingInitial::S,
        }
    }

    /// The initial that the letter is with `h` after it, or under a circumflex.
    pub open spec fn digraph(self) -> SpellingInitial {
        match self {
            ZCS::Z => SpellingInitial::ZH,
            ZCS::C => SpellingInitial::CH,
            ZCS::S => SpellingInitial::SH,
        }
    }

    /// The initial that the letter is alone.
    pub fn plain_initial(self) -> (initial: SpellingInitial)
        ensures
            initial == self.plain(),
    {
        match self {
            ZCS::Z => SpellingInitial::Z,
            ZCS::C => SpellingInitial::C,
            ZCS::S => SpellingInitial::S,
        }
    }

    /// The initial that the letter is with `h` after it, or under a circumflex.
    pub fn digraph_initial(self) -> (initial: SpellingInitial)
        ensures
            initial == self.digraph(),
    {
        match self {
            ZCS::Z => SpellingInitial::ZH,
            ZCS::C => SpellingInitial::CH,
            ZCS::S => SpellingInitial::SH,
        }
    }
}

impl ParserState {
    /// How many steps a syllable in this state can still take without reading a token.
    pub open spec fn rank(self) -> nat {
        match self {
            ParserState::BeforeWordInitial => 2,
            ParserState::ZCSParsed(_) => 1,
            ParserState::InitialParsed(_) => 0,
        }
    }
}

impl Alphabet {
    /// The initial that is written with this consonant, whatever follows it.
    pub open spec fn initial(self) -> Option<SpellingInitial> {
        match self {
            Alphabet::B => Some(SpellingInitial::B),
            Alphabet::P => Some(SpellingInitial::P),
            Alphabet::F => Some(SpellingInitial::F),
            Alphabet::D => Some(SpellingInitial::D),
            Alphabet::T => Some(SpellingInitial::T),
            Alphabet::L => Some(SpellingInitial::L),
            Alphabet::G => Some(SpellingInitial::G),
            Alphabet::K => Some(SpellingInitial::K),
            Alphabet::H => Some(SpellingInitial::H),
            Alphabet::J => Some(SpellingInitial::J),
            Alphabet::Q => Some(SpellingInitial::Q),
            Alphabet::X => Some(SpellingInitial::X),
            Alphabet::R => Some(SpellingInitial::R),
            Alphabet::Y => Some(SpellingInitial::Y),
            Alphabet::W => Some(SpellingInitial::W),
            _ => None,
        }
    }
}

impl Letter {
    /// Whether the letter carries no mark.
    pub open spec fn is_plain(self) -> bool {
        self.diacritics.len() == 0
    }

    /// What the letter is at the start of a syllable.
    ///
    /// A consonant other than `m`, `n`, `z`, `c`, `s` is its initial. `m` and `n` are
    /// initials only without a mark; marked, they are syllables by themselves. `z`, `c`
    /// and `s` without a mark wait for the next letter; under a circumflex and no other
    /// mark they are `zh`, `ch`, `sh`; under any other marks they are syllables by
    /// themselves.
    pub open spec fn opening(self) -> Opening {
        match self.alphabet {
            Alphabet::A | Alphabet::E | Alphabet::O => Opening::Vowel,
            Alphabet::I | Alphabet::U | Alphabet::Eng => Opening::Rime,
            Alphabet::M => if self.is_plain() {
                Opening::Initial(SpellingInitial::M)
            } else {
                Opening::Standalone
            },
            Alphabet::N => if self.is_plain() {
                Opening::Initial(SpellingInitial::N)
            } else {
                Opening::Standalone
            },
            Alphabet::Z => self.sibilant(ZCS::Z),
            Alphabet::C => self.sibilant(ZCS::C),
            Alphabet::S => self.sibilant(ZCS::S),
            consonant => Opening::Initial(consonant.initial()->0),
        }
    }

    /// What `z`, `c` or `s` is at the start of a syllable, by its marks.
    pub open spec fn sibilant(self, zcs: ZCS) -> Opening {
        if self.is_plain() {
            Opening::Sibilant(zcs)
        } else if self.diacritics == seq![Diacritic::Circumflex] {
            Opening::Initial(zcs.digraph())
        } else {
            Opening::Standalone
        }
    }
}

impl Token {
    /// Whether the token is the letter `h` without a mark.
    pub open spec fn is_plain_h(self) -> bool {
        self matches Token::Alph(letter) && letter.alphabet == Alphabet::H && letter.is_plain()
    }
}

impl PinyinParser {
    /// Whether a token is dropped before a syllable: punctuation or white space whose
    /// switch is off.
    pub open spec fn drops(self, token: Token) -> bool {
        match token {
            Token::Punctuation(_) => !self._preserve_punctuations,
            Token::Space(_) => !self._preserve_spaces,
            Token::Alph(_) => false,
        }
    }
}

/// The first position from `from` on whose token is not dropped, or the end of the tokens.
pub open spec fn next_kept(configs: PinyinParser, tokens: Seq<Token>, from: nat) -> nat
    decreases tokens.len() - from,
{
    if from < tokens.len() && configs.drops(tokens[from as int]) {
        next_kept(configs, tokens, from + 1)
    } else {
        from
    }
}

/// The texts of the tokens of `tokens` that are not dropped, in their order.
pub open spec fn kept_texts(configs: PinyinParser, tokens: Seq<Token>) -> Seq<Seq<char>>
    recommends
        forall|i: int| 0 <= i < tokens.len() ==> tokens[i].is_passthrough(),
{
    texts(tokens.filter(|token: Token| !configs.drops(token)))
}

/// The parser as a value: its switches, the tokens of the input, how many of them have been
/// read, and the state of the syllable under way.
pub struct Machine {
    pub configs: PinyinParser,
    pub tokens: Seq<Token>,
    pub position: nat,
    pub state: ParserState,
}

impl Machine {
    /// The read position lies within the tokens or at their end.
    pub open spec fn wf(self) -> bool {
        self.position <= self.tokens.len()
    }

    /// Whether the syllable that a settled initial belongs to began `width` tokens before
    /// the read position, with that initial written by those tokens.
    pub open spec fn settled_over(self, initial: SpellingInitial, width: nat) -> bool {
        &&& width <= self.position
        &&& self.position - width < self.tokens.len()
        &&& self.initial_at(self.position - width) == Some((initial, width))
    }

    /// What holds of the parser at every moment. The read position is within the tokens.
    /// After `z`, `c` or `s`, the token just read is that letter without a mark. A settled
    /// initial is the initial of a syllable that began at most two tokens back, and the
    /// tokens read since then are exactly those that write it.
    pub open spec fn inv(self) -> bool {
        &&& self.wf()
        &&& match self.state {
            ParserState::BeforeWordInitial => true,
            ParserState::ZCSParsed(zcs) => {
                &&& self.position >= 1
                &&& self.tokens[self.position - 1] matches Token::Alph(letter)
                &&& letter.opening() == Opening::Sibilant(zcs)
            },
            ParserState::InitialParsed(initial) => {
                ||| self.settled_over(initial, 0)
                ||| self.settled_over(initial, 1)
                ||| self.settled_over(initial, 2)
            },
        }
    }

    /// The machine after it has read one more token.
    pub open spec fn advanced(self) -> Machine {
        Machine { position: self.position + 1, ..self }
    }

    /// The machine with the initial of the syllable under way settled.
    pub open spec fn settled(self, initial: SpellingInitial) -> Machine {
        Machine { state: ParserState::InitialParsed(initial), ..self }
    }

    /// One step: what it comes to, and the machine after it.
    ///
    /// Before a syllable, the step reads one token. Punctuation and white space are handed
    /// on where their switch is on and dropped where it is off. A letter is taken by what
    /// it is at the start of a syllable: a vowel is put back, since it belongs to the
    /// final, and the syllable has no initial; `i`, `u` and eng are put back and the step
    /// fails. After `z`, `c` or `s`, an `h` without a mark is read and makes the
    /// digraph; anything else is left unread and the letter is the initial alone. Once the
    /// initial is settled, the step fails.
    pub open spec fn step(self) -> (Step<Seq<char>>, Machine) {
        match self.state {
            ParserState::InitialParsed(_) => (Step::Failed(Unimplemented::FinalAndTone), self),
            ParserState::BeforeWordInitial => if self.position >= self.tokens.len() {
                (Step::Finished, self)
            } else {
                match self.tokens[self.position as int] {
                    Token::Punctuation(text) => if self.configs._preserve_punctuations {
                        (Step::Unit(text), self.advanced())
                    } else {
                        (Step::Pending, self.advanced())
                    },
                    Token::Space(text) => if self.configs._preserve_spaces {
                        (Step::Unit(text), self.advanced())
                    } else {
                        (Step::Pending, self.advanced())
                    },
                    Token::Alph(letter) => match letter.opening() {
                        Opening::Initial(initial) => (
                            Step::Pending,
                            self.advanced().settled(initial),
                        ),
                        Opening::Sibilant(zcs) => (
                            Step::Pending,
                            Machine { state: ParserState::ZCSParsed(zcs), ..self.advanced() },
                        ),
                        Opening::Standalone => (
                            Step::Unit(
                                letter.render(
                                    self.configs._preserve_capitalization,
                                    self.configs._strict,
                                ),
                            ),
                            self.advanced(),
                        ),
                        Opening::Vowel => (
                            Step::Pending,
                            self.settled(SpellingInitial::ZeroAEO),
                        ),
                        Opening::Rime => (Step::Failed(Unimplemented::SyllableOpensOnRime), self),
                    },
                }
            },
            ParserState::ZCSParsed(zcs) => if self.position < self.tokens.len()
                && self.tokens[self.position as int].is_plain_h() {
                (Step::Pending, self.advanced().settled(zcs.digraph()))
            } else {
                (Step::Pending, self.settled(zcs.plain()))
            },
        }
    }

    /// What the next call for a unit comes to, and the machine after it: steps are taken
    /// until one of them is not pending. `None` is the end of the input.
    pub open spec fn next(self) -> (Option<Result<Seq<char>, Unimplemented>>, Machine)
        decreases self.tokens.len() - self.position, self.state.rank(),
    {
        let (outcome, after) = self.step();
        match outcome {
            Step::Finished => (None, after),
            Step::Unit(unit) => (Some(Ok(unit)), after),
            Step::Pending => after.next(),
            Step::Failed(what) => (Some(Err(what)), after),
        }
    }

    /// The units that the machine hands out from here on, until the input ends or a step
    /// fails.
    pub open spec fn units(self) -> Seq<Seq<char>>
        decreases self.tokens.len() - self.position, self.state.rank(),
    {
        let (outcome, after) = self.step();
        match outcome {
            Step::Unit(unit) => seq![unit] + after.units(),
            Step::Pending => after.units(),
            Step::Finished | Step::Failed(_) => Seq::empty(),
        }
    }

    /// The first position from `from` on whose token is not dropped, or the end of the
    /// tokens.
    pub open spec fn next_kept(self, from: nat) -> nat {
        next_kept(self.configs, self.tokens, from)
    }

    /// The initial of the syllable that the letter at `at` opens, and the number of tokens
    /// that write it. A vowel opens a syllable without an initial, written by no token.
    /// `z`, `c` and `s` make a digraph of two tokens with an `h` that carries no mark, and
    /// are an initial of one token before anything else and at the end. There is none where
    /// the token is no letter, or a letter that opens no syllable with an initial.
    pub open spec fn initial_at(self, at: int) -> Option<(SpellingInitial, nat)>
        recommends
            0 <= at < self.tokens.len(),
    {
        match self.tokens[at] {
            Token::Alph(letter) => match letter.opening() {
                Opening::Initial(initial) => Some((initial, 1)),
                Opening::Sibilant(zcs) => if at + 1 < self.tokens.len() && self.tokens[at
                    + 1].is_plain_h() {
                    Some((zcs.digraph(), 2))
                } else {
                    Some((zcs.plain(), 1))
                },
                Opening::Vowel => Some((SpellingInitial::ZeroAEO, 0)),
                Opening::Standalone | Opening::Rime => None,
            },
            _ => None,
        }
    }

    /// What `next` comes to before a syllable, told by looking ahead instead of step by
    /// step. The tokens that are dropped are passed over. At the end of the tokens the
    /// input is finished. Punctuation or white space that is kept is the unit, and so is
    /// the text of a marked letter that is a syllable by itself; each is read. A letter
    /// that opens a syllable with an initial has the tokens of that initial read and the
    /// initial settled, and the final is what is not done yet. `i`, `u` and eng are not
    /// read.
    pub open spec fn next_by_lookahead(self) -> (Option<Result<Seq<char>, Unimplemented>>, Machine)
        recommends
            self.state is BeforeWordInitial,
    {
        let at = self.next_kept(self.position);
        let here = Machine { position: at, ..self };
        if at >= self.tokens.len() {
            (None, here)
        } else {
            match self.tokens[at as int] {
                Token::Punctuation(text) => (Some(Ok(text)), here.advanced()),
                Token::Space(text) => (Some(Ok(text)), here.advanced()),
                Token::Alph(letter) => match self.initial_at(at as int) {
                    Some((initial, width)) => (
                        Some(Err(Unimplemented::FinalAndTone)),
                        Machine { position: at + width, ..here.settled(initial) },
                    ),
                    None => if letter.opening() is Standalone {
                        (
                            Some(
                                Ok(
                                    letter.render(
                                        self.configs._preserve_capitalization,
                                        self.configs._strict,
                                    ),
                                ),
                            ),
                            here.advanced(),
                        )
                    } else {
                        (Some(Err(Unimplemented::SyllableOpensOnRime)), here)
                    },
                },
            }
        }
    }
}

impl SpellingInitial {
    /// Whether the tokens `written` write this initial: no token for a syllable that opens
    /// on a vowel; one letter that is the initial by itself, be it a consonant, an
    /// unmarked `z`, `c` or `s`, or one of them under a circumflex for its digraph; or an
    /// unmarked `z`, `c` or `s` and an unmarked `h` for a digraph.
    pub open spec fn written_as(self, written: Seq<Token>) -> bool {
        if written.len() == 0 {
            self == SpellingInitial::ZeroAEO
        } else if written.len() == 1 {
            written[0] matches Token::Alph(letter) && match letter.opening() {
                Opening::Initial(initial) => self == initial,
                Opening::Sibilant(zcs) => self == zcs.plain(),
                _ => false,
            }
        } else if written.len() == 2 {
            &&& written[0] matches Token::Alph(letter)
            &&& letter.opening() matches Opening::Sibilant(zcs)
            &&& self == zcs.digraph()
            &&& written[1].is_plain_h()
        } else {
            false
        }
    }
}

} // verus!
