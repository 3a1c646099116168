use pinyin_parser::{PinyinAmbiguousParser, PinyinParser};

#[test]
fn new_has_every_switch_off() {
    let p = PinyinParser::new();
    assert!(!p._strict);
    assert!(!p._preserve_punctuations);
    assert!(!p._preserve_spaces);
    assert!(!p._preserve_capitalization);
}

#[test]
fn default_is_new() {
    assert_eq!(PinyinParser::default(), PinyinParser::new());
    assert_eq!(PinyinAmbiguousParser::default(), PinyinAmbiguousParser::new());
}

#[test]
fn is_strict_sets_only_strictness() {
    let p = PinyinParser::new().is_strict(true);
    assert_eq!(
        p,
        PinyinParser {
            _strict: true,
            _preserve_punctuations: false,
            _preserve_spaces: false,
            _preserve_capitalization: false,
        }
    );
    assert_eq!(p.is_strict(false), PinyinParser::new());
}

#[test]
fn preserve_spaces_sets_only_spaces() {
    let p = PinyinParser::new().preserve_spaces(true);
    assert_eq!(
        p,
        PinyinParser {
            _strict: false,
            _preserve_punctuations: false,
            _preserve_spaces: true,
            _preserve_capitalization: false,
        }
    );
    assert_eq!(p.preserve_spaces(false), PinyinParser::new());
}

#[test]
fn preserve_capitalization_in_both_spellings() {
    let expected = PinyinParser {
        _strict: false,
        _preserve_punctuations: false,
        _preserve_spaces: false,
        _preserve_capitalization: true,
    };
    assert_eq!(PinyinParser::new().preserve_capitalization(true), expected);
    assert_eq!(PinyinParser::new().preserve_capitalisation(true), expected);
    assert_eq!(expected.preserve_capitalisation(false), PinyinParser::new());
}

#[test]
fn preserve_punctuations_sets_the_switch_for_spaces() {
    let p = PinyinParser::new().preserve_punctuations(true);
    assert!(p._preserve_spaces);
    assert!(!p._preserve_punctuations);
    assert_eq!(p, PinyinParser::new().preserve_spaces(true));
}

#[test]
fn preserve_punctuations_false_turns_spaces_off() {
    let p = PinyinParser::new().preserve_spaces(true).preserve_punctuations(false);
    assert_eq!(p, PinyinParser::new());
}

#[test]
fn setters_keep_the_other_switches() {
    let p = PinyinParser::new()
        .is_strict(true)
        .preserve_capitalization(true)
        .preserve_spaces(true);
    assert_eq!(
        p,
        PinyinParser {
            _strict: true,
            _preserve_punctuations: false,
            _preserve_spaces: true,
            _preserve_capitalization: true,
        }
    );
}

#[test]
fn ambiguous_new_has_every_switch_off() {
    let p = PinyinAmbiguousParser::new();
    assert!(!p._preserve_punctuations);
    assert!(!p._preserve_spaces);
    assert!(!p._preserve_capitalization);
}

#[test]
fn ambiguous_setters() {
    assert_eq!(
        PinyinAmbiguousParser::new().preserve_spaces(true),
        PinyinAmbiguousParser {
            _preserve_punctuations: false,
            _preserve_spaces: true,
            _preserve_capitalization: false,
        }
    );
    let capitals = PinyinAmbiguousParser {
        _preserve_punctuations: false,
        _preserve_spaces: false,
        _preserve_capitalization: true,
    };
    assert_eq!(PinyinAmbiguousParser::new().preserve_capitalization(true), capitals);
    assert_eq!(PinyinAmbiguousParser::new().preserve_capitalisation(true), capitals);
}

#[test]
fn ambiguous_preserve_punctuations_sets_the_switch_for_spaces() {
    let p = PinyinAmbiguousParser::new().preserve_punctuations(true);
    assert!(p._preserve_spaces);
    assert!(!p._preserve_punctuations);
}

#[test]
fn strict_and_loose_entry_points() {
    assert_eq!(PinyinParser::strict("a").configs(), PinyinParser::new().is_strict(true));
    assert_eq!(PinyinParser::loose("a").configs(), PinyinParser::new());
}
