//! Reading romanized Chinese written with tone marks: the text is cut into grapheme
//! clusters, each cluster is classified as a letter, punctuation or white space, and a
//! small state machine recognises, token by token, the initial consonant of each syllable.

pub mod config;
pub mod cursor;
pub mod glyph;
pub mod laws;
pub mod machine;
pub mod parser;
pub mod pinyin_token;
pub mod segment;

pub use config::{PinyinAmbiguousParser, PinyinParser};
pub use machine::{ParserState, SpellingInitial, Step, Unimplemented, ZCS};
pub use parser::{PinyinAmbiguousParserIter, PinyinParserIter};
