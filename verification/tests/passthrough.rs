use pinyin_parser::pinyin_token::PinyinToken;
use pinyin_parser::{
    ParserState, PinyinAmbiguousParser, PinyinParser, PinyinParserIter, Step, Unimplemented,
};

fn both_preserved() -> PinyinParser {
    PinyinParser {
        _strict: false,
        _preserve_punctuations: true,
        _preserve_spaces: true,
        _preserve_capitalization: false,
    }
}

fn only_punctuation_preserved() -> PinyinParser {
    PinyinParser {
        _strict: false,
        _preserve_punctuations: true,
        _preserve_spaces: false,
        _preserve_capitalization: false,
    }
}

fn units(mut it: PinyinParserIter) -> (Vec<String>, Option<Unimplemented>) {
    let mut out = Vec::new();
    loop {
        match it.next() {
            None => return (out, None),
            Some(Ok(unit)) => out.push(unit),
            Some(Err(what)) => return (out, Some(what)),
        }
    }
}

#[test]
fn an_empty_text_has_no_unit() {
    let mut it = PinyinParser::loose("");
    assert_eq!(it.step(), Step::Finished);
    assert_eq!(it.next(), None);
    assert_eq!(it.position(), 0);
    assert_eq!(it.state(), ParserState::BeforeWordInitial);
}

#[test]
fn punctuation_and_space_come_out_as_they_went_in() {
    for text in [
        "",
        " ",
        ",",
        " ,\t\u{3002}!  \r\n",
        "\u{ff0c}\u{3000}\u{4e2d}\u{6587} 123 ... \n\n",
        "v V \u{1f1e8}\u{1f1f3} a\u{303}",
    ] {
        let (out, failure) = units(both_preserved().parse(text));
        assert_eq!(failure, None);
        assert_eq!(out.concat(), text);
    }
}

#[test]
fn each_preserved_token_is_one_unit() {
    let (out, failure) = units(both_preserved().parse(", \r\n\u{3002}"));
    assert_eq!(failure, None);
    assert_eq!(out, vec![",", " ", "\r\n", "\u{3002}"]);
}

#[test]
fn a_loose_parser_drops_punctuation_and_space() {
    let mut it = PinyinParser::loose(" ,\t\u{3002}! ");
    assert_eq!(it.next(), None);
    assert_eq!(it.position(), 6);
    assert_eq!(it.state(), ParserState::BeforeWordInitial);
}

#[test]
fn the_builder_preserves_spaces_only() {
    let built = PinyinParser::new().preserve_punctuations(true).preserve_spaces(true);
    let (out, failure) = units(built.parse("a1, \t!"));
    assert_eq!(failure, Some(Unimplemented::FinalAndTone));
    assert_eq!(out, Vec::<String>::new());
    let (out, failure) = units(built.parse("1, \t!\n"));
    assert_eq!(failure, None);
    assert_eq!(out, vec![" ", "\t", "\n"]);
}

#[test]
fn preserve_punctuations_alone_preserves_spaces() {
    let built = PinyinParser::new().preserve_punctuations(true);
    let (out, failure) = units(built.parse(", ;"));
    assert_eq!(failure, None);
    assert_eq!(out, vec![" "]);
}

#[test]
fn the_switch_for_punctuation_preserves_punctuation_only() {
    let (out, failure) = units(only_punctuation_preserved().parse("1, \t!\n"));
    assert_eq!(failure, None);
    assert_eq!(out, vec!["1", ",", "!"]);
}

#[test]
fn preserved_tokens_are_read_one_for_each_call() {
    let mut it = both_preserved().parse(", ");
    assert_eq!(it.next(), Some(Ok(",".to_string())));
    assert_eq!(it.position(), 1);
    assert_eq!(it.state(), ParserState::BeforeWordInitial);
    assert_eq!(it.next(), Some(Ok(" ".to_string())));
    assert_eq!(it.position(), 2);
    assert_eq!(it.next(), None);
    assert_eq!(it.position(), 2);
}

#[test]
fn the_end_of_the_input_repeats() {
    let mut it = both_preserved().parse("!");
    assert_eq!(it.next(), Some(Ok("!".to_string())));
    for _ in 0..3 {
        assert_eq!(it.next(), None);
        assert_eq!(it.step(), Step::Finished);
        assert_eq!(it.position(), 1);
    }
}

#[test]
fn parse_holds_the_switches_and_the_tokens() {
    let it = both_preserved().parse(", ");
    assert_eq!(it.configs(), both_preserved());
    assert_eq!(
        it.tokens(),
        &vec![PinyinToken::Punctuation(",".to_string()), PinyinToken::Space(" ".to_string())]
    );
    assert_eq!(it.position(), 0);
    assert_eq!(it.state(), ParserState::BeforeWordInitial);
}

#[test]
fn the_ambiguous_parser_holds_the_switches_and_the_tokens() {
    let configs = PinyinAmbiguousParser::new().preserve_capitalization(true);
    let it = configs.parse(", ");
    assert_eq!(it.configs(), configs);
    assert_eq!(
        it.tokens(),
        &vec![PinyinToken::Punctuation(",".to_string()), PinyinToken::Space(" ".to_string())]
    );
    assert_eq!(it.position(), 0);
    assert_eq!(it.state(), ParserState::BeforeWordInitial);
}
