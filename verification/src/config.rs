//! The switches that say how a text is read.

use vstd::prelude::*;

verus! {

/// How Pinyin text is read: four switches, all off unless set.
///
/// The parser reads `_preserve_punctuations` to decide whether punctuation is handed on,
/// and `_preserve_spaces` to decide whether white space is. `preserve_punctuations` sets
/// `_preserve_spaces`, as `preserve_spaces` does, and no method sets
/// `_preserve_punctuations`: a value with that switch on is written out field by field.
#[derive(Copy, Clone, PartialEq, Eq, Debug, Hash, Structural)]
#[allow(clippy::struct_excessive_bools)]
pub struct PinyinParser {
    pub _strict: bool,
    pub _preserve_punctuations: bool,
    pub _preserve_spaces: bool,
    pub _preserve_capitalization: bool,
}

impl Default for PinyinParser {
    fn default() -> (parser: Self)
        ensures
            parser == PinyinParser::loose_config(),
    {
        Self::new()
    }
}

impl PinyinParser {
    /// The value with every switch off.
    pub open spec fn loose_config() -> PinyinParser {
        PinyinParser {
            _strict: false,
            _preserve_punctuations: false,
            _preserve_spaces: false,
            _preserve_capitalization: false,
        }
    }

    pub fn new() -> (parser: Self)
        ensures
            parser == PinyinParser::loose_config(),
    {
        PinyinParser {
            _strict: false,
            _preserve_spaces: false,
            _preserve_capitalization: false,
            _preserve_punctuations: false,
        }
    }

    pub fn is_strict(self, b: bool) -> (parser: Self)
        ensures
            parser == (PinyinParser { _strict: b, ..self }),
    {
        Self { _strict: b, ..self }
    }

    pub fn preserve_spaces(self, b: bool) -> (parser: Self)
        ensures
            parser == (PinyinParser { _preserve_spaces: b, ..self }),
    {
        Self { _preserve_spaces: b, ..self }
    }

    pub fn preserve_capitalization(self, b: bool) -> (parser: Self)
        ensures
            parser == (PinyinParser { _preserve_capitalization: b, ..self }),
    {
        Self { _preserve_capitalization: b, ..self }
    }

    /// `preserve_capitalization` in the British spelling.
    pub fn preserve_capitalisation(self, b: bool) -> (parser: Self)
        ensures
            parser == (PinyinParser { _preserve_capitalization: b, ..self }),
    {
        self.preserve_capitalization(b)
    }

    /// Sets the switch for white space, not the one for punctuation.
    pub fn preserve_punctuations(self, b: bool) -> (parser: Self)
        ensures
            parser == (PinyinParser { _preserve_spaces: b, ..self }),
    {
        Self { _preserve_spaces: b, ..self }
    }
}

/// How Pinyin text written without spaces is read, where it can be split in more than one
/// way: the switches of `PinyinParser` without strictness.
#[derive(Copy, Clone, PartialEq, Eq, Debug, Hash, Structural)]
pub struct PinyinAmbiguousParser {
    pub _preserve_punctuations: bool,
    pub _preserve_spaces: bool,
    pub _preserve_capitalization: bool,
}

impl Default for PinyinAmbiguousParser {
    fn default() -> (parser: Self)
        ensures
            parser == PinyinAmbiguousParser::loose_config(),
    {
        Self::new()
    }
}

impl PinyinAmbiguousParser {
    /// The value with every switch off.
    pub open spec fn loose_config() -> PinyinAmbiguousParser {
        PinyinAmbiguousParser {
            _preserve_punctuations: false,
            _preserve_spaces: false,
            _preserve_capitalization: false,
        }
    }

    pub fn new() -> (parser: Self)
        ensures
            parser == PinyinAmbiguousParser::loose_config(),
    {
        PinyinAmbiguousParser {
            _preserve_spaces: false,
            _preserve_capitalization: false,
            _preserve_punctuations: false,
        }
    }

    pub fn preserve_spaces(self, b: bool) -> (parser: Self)
        ensures
            parser == (PinyinAmbiguousParser { _preserve_spaces: b, ..self }),
    {
        Self { _preserve_spaces: b, ..self }
    }

    pub fn preserve_capitalization(self, b: bool) -> (parser: Self)
        ensures
            parser == (PinyinAmbiguousParser { _preserve_capitalization: b, ..self }),
    {
        Self { _preserve_capitalization: b, ..self }
    }

    /// `preserve_capitalization` in the British spelling.
    pub fn preserve_capitalisation(self, b: bool) -> (parser: Self)
        ensures
            parser == (PinyinAmbiguousParser { _preserve_capitalization: b, ..self }),
    {
        self.preserve_capitalization(b)
    }

    /// Sets the switch for white space, not the one for punctuation.
    pub fn preserve_punctuations(self, b: bool) -> (parser: Self)
        ensures
            parser == (PinyinAmbiguousParser { _preserve_spaces: b, ..self }),
    {
        Self { _preserve_spaces: b, ..self }
    }
}

} // verus!
