//! The parser at work on a text.

use crate::config::{PinyinAmbiguousParser, PinyinParser};
use crate::cursor::VecAndIndex;
use crate::glyph::{Alphabet, Diacritic};
use crate::machine::{Machine, ParserState, SpellingInitial, Step, Unimplemented, ZCS};
use crate::laws::{lemma_passthrough_round_trip, lemma_step_keeps_inv};
use crate::pinyin_token::{only_passthrough, PinyinToken, Token};
use crate::segment::{tokenize, tokens_of, views};
use vstd::prelude::*;

verus! {

/// The parser at work on one text: it hands out the units of the text one by one.
pub struct PinyinParserIter {
    configs: PinyinParser,
    it: VecAndIndex<PinyinToken>,
    state: ParserState,
}

impl View for PinyinParserIter {
    type V = Machine;

    closed spec fn view(&self) -> Machine {
        Machine {
            configs: self.configs,
            tokens: views(self.it@.items),
            position: self.it@.position,
            state: self.state,
        }
    }
}

impl PinyinParser {
    /// Starts the parser on the text `s`, before its first token.
    ///
    /// Where the text holds nothing but punctuation and white space and both are
    /// preserved, the units that the parser then hands out, put together, are the text.
    pub fn parse(self, s: &str) -> (it: PinyinParserIter)
        ensures
            it@ == (Machine {
                configs: self,
                tokens: tokens_of(s@),
                position: 0,
                state: ParserState::BeforeWordInitial,
            }),
            self._preserve_punctuations && self._preserve_spaces && only_passthrough(tokens_of(s@))
                ==> it@.units().flatten() == s@,
    {
        let it = PinyinParserIter::new(self, tokenize(s));
        proof {
            if self._preserve_punctuations && self._preserve_spaces && only_passthrough(
                tokens_of(s@),
            ) {
                lemma_passthrough_round_trip(it@);
                assert(it@.tokens.skip(0) =~= it@.tokens);
            }
        }
        it
    }

    /// Starts a parser with strictness on and every other switch off.
    pub fn strict(s: &str) -> (it: PinyinParserIter)
        ensures
            it@ == (Machine {
                configs: PinyinParser { _strict: true, ..PinyinParser::loose_config() },
                tokens: tokens_of(s@),
                position: 0,
                state: ParserState::BeforeWordInitial,
            }),
    {
        Self::new().is_strict(true).parse(s)
    }

    /// Starts a parser with every switch off.
    pub fn loose(s: &str) -> (it: PinyinParserIter)
        ensures
            it@ == (Machine {
                configs: PinyinParser::loose_config(),
                tokens: tokens_of(s@),
                position: 0,
                state: ParserState::BeforeWordInitial,
            }),
    {
        Self::new().parse(s)
    }
}

impl PinyinParserIter {
    /// A parser with the switches `configs` before the first of `tokens`.
    pub fn new(configs: PinyinParser, tokens: Vec<PinyinToken>) -> (it: PinyinParserIter)
        ensures
            it@ == (Machine {
                configs,
                tokens: views(tokens@),
                position: 0,
                state: ParserState::BeforeWordInitial,
            }),
            it@.inv(),
    {
        PinyinParserIter {
            configs,
            it: VecAndIndex::new(tokens),
            state: ParserState::BeforeWordInitial,
        }
    }

    /// The switches the parser was started with.
    pub fn configs(&self) -> (configs: PinyinParser)
        ensures
            configs == self@.configs,
    {
        self.configs
    }

    /// The tokens of the text, read or not.
    pub fn tokens(&self) -> (tokens: &Vec<PinyinToken>)
        ensures
            views(tokens@) == self@.tokens,
    {
        self.it.items()
    }

    /// How many tokens have been read.
    pub fn position(&self) -> (position: usize)
        ensures
            position == self@.position,
            self@.wf(),
    {
        self.it.position()
    }

    /// How far the syllable at the read position has been recognised.
    pub fn state(&self) -> (state: ParserState)
        ensures
            state == self@.state,
    {
        self.state
    }

    /// Takes one step.
    pub fn step(&mut self) -> (outcome: Step<String>)
        ensures
            outcome@ == old(self)@.step().0,
            final(self)@ == old(self)@.step().1,
            final(self)@.wf(),
            old(self)@.inv() ==> final(self)@.inv(),
    {
        proof {
            use_type_invariant(&self.it);
            if self@.inv() {
                lemma_step_keeps_inv(self@);
            }
        }
        match self.state {
            ParserState::InitialParsed(_) => Step::Failed(Unimplemented::FinalAndTone),
            ParserState::BeforeWordInitial => match self.it.read_next_token() {
                None => Step::Finished,
                Some(PinyinToken::Punctuation(s)) => {
                    if self.configs._preserve_punctuations {
                        Step::Unit(s.clone())
                    } else {
                        Step::Pending
                    }
                },
                Some(PinyinToken::Space(s)) => {
                    if self.configs._preserve_spaces {
                        Step::Unit(s.clone())
                    } else {
                        Step::Pending
                    }
                },
                Some(PinyinToken::Alph(alph)) => match alph.alphabet {
                    Alphabet::B => {
                        self.state = ParserState::InitialParsed(SpellingInitial::B);
                        Step::Pending
                    },
                    Alphabet::P => {
                        self.state = ParserState::InitialParsed(SpellingInitial::P);
                        Step::Pending
                    },
                    Alphabet::M => {
                        if alph.diacritics.len() == 0 {
                            self.state = ParserState::InitialParsed(SpellingInitial::M);
                            Step::Pending
                        } else {
                            Step::Unit(
                                alph.to_str(
                                    self.configs._preserve_capitalization,
                                    self.configs._strict,
                                ),
                            )
                        }
                    },
                    Alphabet::F => {
                        self.state = ParserState::InitialParsed(SpellingInitial::F);
                        Step::Pending
                    },
                    Alphabet::D => {
                        self.state = ParserState::InitialParsed(SpellingInitial::D);
                        Step::Pending
                    },
                    Alphabet::T => {
                        self.state = ParserState::InitialParsed(SpellingInitial::T);
                        Step::Pending
                    },
                    Alphabet::N => {
                        if alph.diacritics.len() == 0 {
                            self.state = ParserState::InitialParsed(SpellingInitial::N);
                            Step::Pending
                        } else {
                            Step::Unit(
                                alph.to_str(
                                    self.configs._preserve_capitalization,
                                    self.configs._strict,
                                ),
                            )
                        }
                    },
                    Alphabet::L => {
                        self.state = ParserState::InitialParsed(SpellingInitial::L);
                        Step::Pending
                    },
                    Alphabet::G => {
                        self.state = ParserState::InitialParsed(SpellingInitial::G);
                        Step::Pending
                    },
                    Alphabet::K => {
                        self.state = ParserState::InitialParsed(SpellingInitial::K);
                        Step::Pending
                    },
                    Alphabet::H => {
                        self.state = ParserState::InitialParsed(SpellingInitial::H);
                        Step::Pending
                    },
                    Alphabet::J => {
                        self.state = ParserState::InitialParsed(SpellingInitial::J);
                        Step::Pending
                    },
                    Alphabet::Q => {
                        self.state = ParserState::InitialParsed(SpellingInitial::Q);
                        Step::Pending
                    },
                    Alphabet::X => {
                        self.state = ParserState::InitialParsed(SpellingInitial::X);
                        Step::Pending
                    },
                    Alphabet::R => {
                        self.state = ParserState::InitialParsed(SpellingInitial::R);
                        Step::Pending
                    },
                    Alphabet::Y => {
                        self.state = ParserState::InitialParsed(SpellingInitial::Y);
                        Step::Pending
                    },
                    Alphabet::W => {
                        self.state = ParserState::InitialParsed(SpellingInitial::W);
                        Step::Pending
                    },
                    Alphabet::Z => {
                        if alph.diacritics.len() == 0 {
                            self.state = ParserState::ZCSParsed(ZCS::Z);
                            Step::Pending
                        } else if alph.diacritics.len() == 1 && matches!(
                            alph.diacritics[0],
                            Diacritic::Circumflex
                        ) {
                            assert(alph.diacritics@ =~= seq![Diacritic::Circumflex]);
                            self.state = ParserState::InitialParsed(SpellingInitial::ZH);
                            Step::Pending
                        } else {
                            Step::Unit(
                                alph.to_str(
                                    self.configs._preserve_capitalization,
                                    self.configs._strict,
                                ),
                            )
                        }
                    },
                    Alphabet::C => {
                        if alph.diacritics.len() == 0 {
                            self.state = ParserState::ZCSParsed(ZCS::C);
                            Step::Pending
                        } else if alph.diacritics.len() == 1 && matches!(
                            alph.diacritics[0],
                            Diacritic::Circumflex
                        ) {
                            assert(alph.diacritics@ =~= seq![Diacritic::Circumflex]);
                            self.state = ParserState::InitialParsed(SpellingInitial::CH);
                            Step::Pending
                        } else {
                            Step::Unit(
                                alph.to_str(
                                    self.configs._preserve_capitalization,
                                    self.configs._strict,
                                ),
                            )
                        }
                    },
                    Alphabet::S => {
                        if alph.diacritics.len() == 0 {
                            self.state = ParserState::ZCSParsed(ZCS::S);
                            Step::Pending
                        } else if alph.diacritics.len() == 1 && matches!(
                            alph.diacritics[0],
                            Diacritic::Circumflex
                        ) {
                            assert(alph.diacritics@ =~= seq![Diacritic::Circumflex]);
                            self.state = ParserState::InitialParsed(SpellingInitial::SH);
                            Step::Pending
                        } else {
                            Step::Unit(
                                alph.to_str(
                                    self.configs._preserve_capitalization,
                                    self.configs._strict,
                                ),
                            )
                        }
                    },
                    Alphabet::A | Alphabet::E | Alphabet::O => {
                        self.it.backtrack();
                        self.state = ParserState::InitialParsed(SpellingInitial::ZeroAEO);
                        Step::Pending
                    },
                    Alphabet::I | Alphabet::U | Alphabet::Eng => {
                        self.it.backtrack();
                        Step::Failed(Unimplemented::SyllableOpensOnRime)
                    },
                },
            },
            ParserState::ZCSParsed(zcs) => {
                let digraph = match self.it.read_next_token() {
                    Some(PinyinToken::Alph(alph)) => matches!(alph.alphabet, Alphabet::H)
                        && alph.diacritics.len() == 0,
                    Some(_) => false,
                    None => {
                        self.state = ParserState::InitialParsed(zcs.plain_initial());
                        return Step::Pending;
                    },
                };
                if digraph {
                    self.state = ParserState::InitialParsed(zcs.digraph_initial());
                } else {
                    self.it.backtrack();
                    self.state = ParserState::InitialParsed(zcs.plain_initial());
                }
                Step::Pending
            },
        }
    }

    /// Hands out the next unit of the text: `None` at the end of the input, an error where
    /// the parser comes to what it does not do yet.
    ///
    /// The units are the punctuation and the white space that the switches preserve, and
    /// the marked letters that are syllables by themselves. Every other letter opens a
    /// syllable, whose initial is then settled before the call fails on its final. A call
    /// that fails leaves the parser where the failure was found, so that the calls after it
    /// fail in the same way.
    pub fn next(&mut self) -> (unit: Option<Result<String, Unimplemented>>)
        ensures
            match unit {
                None => old(self)@.next().0 is None,
                Some(Ok(text)) => old(self)@.next().0 == Some(Ok::<Seq<char>, Unimplemented>(text@)),
                Some(Err(what)) => old(self)@.next().0 == Some(Err::<Seq<char>, Unimplemented>(what)),
            },
            final(self)@ == old(self)@.next().1,
            final(self)@.wf(),
            old(self)@.inv() ==> final(self)@.inv(),
    {
        let ghost start = self@;
        loop
            invariant
                start == old(self)@,
                self@.next() == start.next(),
                start.inv() ==> self@.inv(),
            decreases self@.tokens.len() - self@.position, self@.state.rank(),
        {
            match self.step() {
                Step::Finished => {
                    return None;
                },
                Step::Unit(text) => {
                    return Some(Ok(text));
                },
                Step::Pending => {},
                Step::Failed(what) => {
                    return Some(Err(what));
                },
            }
        }
    }
}

/// The parser for text that can be split in more than one way, set on one text. It holds
/// the tokens of the text and hands out nothing yet.
pub struct PinyinAmbiguousParserIter {
    configs: PinyinAmbiguousParser,
    it: VecAndIndex<PinyinToken>,
    state: ParserState,
}

/// A `PinyinAmbiguousParserIter` as a value.
pub struct AmbiguousMachine {
    pub configs: PinyinAmbiguousParser,
    pub tokens: Seq<Token>,
    pub position: nat,
    pub state: ParserState,
}

impl View for PinyinAmbiguousParserIter {
    type V = AmbiguousMachine;

    closed spec fn view(&self) -> AmbiguousMachine {
        AmbiguousMachine {
            configs: self.configs,
            tokens: views(self.it@.items),
            position: self.it@.position,
            state: self.state,
        }
    }
}

impl PinyinAmbiguousParser {
    /// Sets the parser on the text `s`, before its first token.
    pub fn parse(self, s: &str) -> (it: PinyinAmbiguousParserIter)
        ensures
            it@ == (AmbiguousMachine {
                configs: self,
                tokens: tokens_of(s@),
                position: 0,
                state: ParserState::BeforeWordInitial,
            }),
    {
        PinyinAmbiguousParserIter::new(self, tokenize(s))
    }
}

impl PinyinAmbiguousParserIter {
    /// A parser with the switches `configs` before the first of `tokens`.
    pub fn new(configs: PinyinAmbiguousParser, tokens: Vec<PinyinToken>) -> (it:
        PinyinAmbiguousParserIter)
        ensures
            it@ == (AmbiguousMachine {
                configs,
                tokens: views(tokens@),
                position: 0,
                state: ParserState::BeforeWordInitial,
            }),
    {
        PinyinAmbiguousParserIter {
            configs,
            it: VecAndIndex::new(tokens),
            state: ParserState::BeforeWordInitial,
        }
    }

    /// The switches the parser was set with.
    pub fn configs(&self) -> (configs: PinyinAmbiguousParser)
        ensures
            configs == self@.configs,
    {
        self.configs
    }

    /// The tokens of the text.
    pub fn tokens(&self) -> (tokens: &Vec<PinyinToken>)
        ensures
            views(tokens@) == self@.tokens,
    {
        self.it.items()
    }

    /// How many tokens have been read.
    pub fn position(&self) -> (position: usize)
        ensures
            position == self@.position,
    {
        self.it.position()
    }

    /// How far the syllable at the read position has been recognised.
    pub fn state(&self) -> (state: ParserState)
        ensures
            state == self@.state,
    {
        self.state
    }
}

} // verus!
