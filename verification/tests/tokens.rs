use pinyin_parser::glyph::{decompose, Alphabet, Diacritic};
use pinyin_parser::pinyin_token::{is_space_char, to_token, Alph, PinyinToken};
use unicode_normalization::UnicodeNormalization;

fn letter(alphabet: Alphabet, diacritics: Vec<Diacritic>, capitalized: bool) -> PinyinToken {
    PinyinToken::Alph(Alph { alphabet, diacritics, capitalized })
}

fn alphabet() -> Vec<(Alphabet, char, char)> {
    vec![
        (Alphabet::A, 'a', 'A'),
        (Alphabet::B, 'b', 'B'),
        (Alphabet::C, 'c', 'C'),
        (Alphabet::D, 'd', 'D'),
        (Alphabet::E, 'e', 'E'),
        (Alphabet::F, 'f', 'F'),
        (Alphabet::G, 'g', 'G'),
        (Alphabet::H, 'h', 'H'),
        (Alphabet::I, 'i', 'I'),
        (Alphabet::J, 'j', 'J'),
        (Alphabet::K, 'k', 'K'),
        (Alphabet::L, 'l', 'L'),
        (Alphabet::M, 'm', 'M'),
        (Alphabet::N, 'n', 'N'),
        (Alphabet::O, 'o', 'O'),
        (Alphabet::P, 'p', 'P'),
        (Alphabet::Q, 'q', 'Q'),
        (Alphabet::R, 'r', 'R'),
        (Alphabet::S, 's', 'S'),
        (Alphabet::T, 't', 'T'),
        (Alphabet::U, 'u', 'U'),
        (Alphabet::W, 'w', 'W'),
        (Alphabet::X, 'x', 'X'),
        (Alphabet::Y, 'y', 'Y'),
        (Alphabet::Z, 'z', 'Z'),
        (Alphabet::Eng, '\u{14b}', '\u{14a}'),
    ]
}

fn marks() -> Vec<(Diacritic, char)> {
    vec![
        (Diacritic::Macron, '\u{304}'),
        (Diacritic::Acute, '\u{301}'),
        (Diacritic::Caron, '\u{30c}'),
        (Diacritic::Grave, '\u{300}'),
        (Diacritic::Circumflex, '\u{302}'),
        (Diacritic::Diaeresis, '\u{308}'),
    ]
}

#[test]
fn every_letter_has_its_two_glyphs() {
    for (a, small, capital) in alphabet() {
        assert_eq!(a.to_glyph(false), small);
        assert_eq!(a.to_glyph(true), capital);
        assert_eq!(Alphabet::from_glyph(small), Some((a, false)));
        assert_eq!(Alphabet::from_glyph(capital), Some((a, true)));
    }
}

#[test]
fn capital_glyphs_are_the_upper_case_of_the_small_ones() {
    for (a, _, _) in alphabet() {
        let upper: Vec<char> = a.to_glyph(false).to_uppercase().collect();
        assert_eq!(upper, vec![a.to_glyph(true)]);
    }
}

#[test]
fn no_other_character_is_a_letter() {
    let known: Vec<char> = alphabet().iter().flat_map(|r| vec![r.1, r.2]).collect();
    let mut c = '\0';
    loop {
        if !known.contains(&c) {
            assert_eq!(Alphabet::from_glyph(c), None);
        }
        if c == char::MAX {
            break;
        }
        c = char::from_u32(c as u32 + 1).unwrap_or('\u{e000}');
    }
    assert_eq!(Alphabet::from_glyph('v'), None);
    assert_eq!(Alphabet::from_glyph('V'), None);
}

#[test]
fn every_mark_has_its_combining_character() {
    for (d, c) in marks() {
        assert_eq!(d.to_combining(), c);
        assert_eq!(Diacritic::from_combining(c), Some(d));
    }
    assert_eq!(Diacritic::from_combining('\u{303}'), None);
    assert_eq!(Diacritic::from_combining('\u{310}'), None);
    assert_eq!(Diacritic::from_combining('a'), None);
}

#[test]
fn decompose_takes_tone_marked_vowels_apart() {
    assert_eq!(decompose('\u{101}'), Some((Alphabet::A, false, Diacritic::Macron, None)));
    assert_eq!(decompose('\u{c9}'), Some((Alphabet::E, true, Diacritic::Acute, None)));
    assert_eq!(decompose('\u{1d2}'), Some((Alphabet::O, false, Diacritic::Caron, None)));
    assert_eq!(decompose('\u{ec}'), Some((Alphabet::I, false, Diacritic::Grave, None)));
    assert_eq!(decompose('\u{fc}'), Some((Alphabet::U, false, Diacritic::Diaeresis, None)));
    assert_eq!(
        decompose('\u{1da}'),
        Some((Alphabet::U, false, Diacritic::Diaeresis, Some(Diacritic::Caron)))
    );
    assert_eq!(
        decompose('\u{1d5}'),
        Some((Alphabet::U, true, Diacritic::Diaeresis, Some(Diacritic::Macron)))
    );
    assert_eq!(decompose('\u{1e3f}'), Some((Alphabet::M, false, Diacritic::Acute, None)));
    assert_eq!(decompose('\u{1f9}'), Some((Alphabet::N, false, Diacritic::Grave, None)));
    assert_eq!(decompose('\u{1e91}'), Some((Alphabet::Z, false, Diacritic::Circumflex, None)));
    assert_eq!(decompose('\u{108}'), Some((Alphabet::C, true, Diacritic::Circumflex, None)));
    assert_eq!(decompose('\u{15d}'), Some((Alphabet::S, false, Diacritic::Circumflex, None)));
}

#[test]
fn decompose_leaves_other_characters() {
    assert_eq!(decompose('a'), None);
    assert_eq!(decompose('\u{e3}'), None);
    assert_eq!(decompose('\u{e7}'), None);
    assert_eq!(decompose('\u{301}'), None);
    assert_eq!(decompose('\u{4e2d}'), None);
}

#[test]
fn decompose_agrees_with_canonical_decomposition() {
    let letters = alphabet();
    let marks = marks();
    let mut c = '\0';
    loop {
        let parts: Vec<char> = c.nfd().collect();
        let head = letters
            .iter()
            .find_map(|r| {
                if parts[0] == r.1 {
                    Some((r.0, false))
                } else if parts[0] == r.2 {
                    Some((r.0, true))
                } else {
                    None
                }
            });
        let tail: Vec<Option<Diacritic>> = parts[1..]
            .iter()
            .map(|p| marks.iter().find(|m| m.1 == *p).map(|m| m.0))
            .collect();
        let expected = match head {
            Some((a, capital)) if !tail.is_empty() && tail.iter().all(|m| m.is_some()) => {
                assert!(tail.len() <= 2);
                Some((a, capital, tail[0].unwrap(), tail.get(1).map(|m| m.unwrap())))
            }
            _ => None,
        };
        assert_eq!(decompose(c), expected, "{:?}", c);
        if c == char::MAX {
            break;
        }
        c = char::from_u32(c as u32 + 1).unwrap_or('\u{e000}');
    }
}

#[test]
fn white_space_is_what_the_standard_library_says() {
    let mut c = '\0';
    loop {
        assert_eq!(is_space_char(c), c.is_whitespace(), "{:?}", c);
        if c == char::MAX {
            break;
        }
        c = char::from_u32(c as u32 + 1).unwrap_or('\u{e000}');
    }
}

#[test]
fn plain_letters_are_letters_without_marks() {
    for (a, small, capital) in alphabet() {
        assert_eq!(to_token(&small.to_string()), letter(a, vec![], false));
        assert_eq!(to_token(&capital.to_string()), letter(a, vec![], true));
    }
}

#[test]
fn v_is_no_letter_of_the_alphabet() {
    assert_eq!(to_token("v"), PinyinToken::Punctuation("v".to_string()));
    assert_eq!(to_token("V"), PinyinToken::Punctuation("V".to_string()));
}

#[test]
fn combining_marks_attach_to_their_letter() {
    assert_eq!(to_token("a\u{304}"), letter(Alphabet::A, vec![Diacritic::Macron], false));
    assert_eq!(to_token("E\u{301}"), letter(Alphabet::E, vec![Diacritic::Acute], true));
    assert_eq!(to_token("m\u{300}"), letter(Alphabet::M, vec![Diacritic::Grave], false));
    assert_eq!(to_token("h\u{301}"), letter(Alphabet::H, vec![Diacritic::Acute], false));
    assert_eq!(
        to_token("u\u{308}\u{30c}"),
        letter(Alphabet::U, vec![Diacritic::Diaeresis, Diacritic::Caron], false)
    );
    assert_eq!(
        to_token("z\u{302}\u{301}"),
        letter(Alphabet::Z, vec![Diacritic::Circumflex, Diacritic::Acute], false)
    );
    assert_eq!(
        to_token("\u{14b}\u{304}"),
        letter(Alphabet::Eng, vec![Diacritic::Macron], false)
    );
}

#[test]
fn precomposed_marks_attach_to_their_letter() {
    assert_eq!(to_token("\u{101}"), letter(Alphabet::A, vec![Diacritic::Macron], false));
    assert_eq!(to_token("\u{1e3f}"), letter(Alphabet::M, vec![Diacritic::Acute], false));
    assert_eq!(to_token("\u{1e90}"), letter(Alphabet::Z, vec![Diacritic::Circumflex], true));
    assert_eq!(
        to_token("\u{1d8}"),
        letter(Alphabet::U, vec![Diacritic::Diaeresis, Diacritic::Acute], false)
    );
}

#[test]
fn precomposed_marks_come_before_combining_ones() {
    assert_eq!(
        to_token("\u{fc}\u{300}"),
        letter(Alphabet::U, vec![Diacritic::Diaeresis, Diacritic::Grave], false)
    );
    assert_eq!(
        to_token("\u{ea}\u{304}"),
        letter(Alphabet::E, vec![Diacritic::Circumflex, Diacritic::Macron], false)
    );
}

#[test]
fn a_marked_letter_and_its_canonical_decomposition_are_the_same_letter() {
    let mut c = '\0';
    loop {
        let whole = to_token(&c.to_string());
        let parts: String = c.nfd().collect();
        let apart = to_token(&parts);
        let marked = parts.chars().count() > 1;
        if marked && (matches!(whole, PinyinToken::Alph(_)) || matches!(apart, PinyinToken::Alph(_))) {
            assert_eq!(whole, apart, "{:?}", c);
        }
        if c == char::MAX {
            break;
        }
        c = char::from_u32(c as u32 + 1).unwrap_or('\u{e000}');
    }
}

#[test]
fn white_space_is_space() {
    assert_eq!(to_token(" "), PinyinToken::Space(" ".to_string()));
    assert_eq!(to_token("\t"), PinyinToken::Space("\t".to_string()));
    assert_eq!(to_token("\n"), PinyinToken::Space("\n".to_string()));
    assert_eq!(to_token("\r\n"), PinyinToken::Space("\r\n".to_string()));
    assert_eq!(to_token("\u{a0}"), PinyinToken::Space("\u{a0}".to_string()));
    assert_eq!(to_token("\u{3000}"), PinyinToken::Space("\u{3000}".to_string()));
}

#[test]
fn everything_else_is_punctuation() {
    for text in [",", ".", "!", "'", "-", "1", "9", "\u{3002}", "\u{ff0c}", "\u{4e2d}", "\u{1f600}"] {
        assert_eq!(to_token(text), PinyinToken::Punctuation(text.to_string()));
    }
}

#[test]
fn marks_do_not_attach_to_punctuation_or_space() {
    assert_eq!(to_token(",\u{301}"), PinyinToken::Punctuation(",\u{301}".to_string()));
    assert_eq!(to_token(" \u{301}"), PinyinToken::Punctuation(" \u{301}".to_string()));
    assert_eq!(to_token("\u{301}"), PinyinToken::Punctuation("\u{301}".to_string()));
}

#[test]
fn a_letter_under_any_other_mark_is_punctuation() {
    assert_eq!(to_token("a\u{303}"), PinyinToken::Punctuation("a\u{303}".to_string()));
    assert_eq!(to_token("\u{e3}"), PinyinToken::Punctuation("\u{e3}".to_string()));
    assert_eq!(to_token("a\u{301}\u{323}"), PinyinToken::Punctuation("a\u{301}\u{323}".to_string()));
    assert_eq!(to_token("\u{e7}"), PinyinToken::Punctuation("\u{e7}".to_string()));
}

#[test]
fn more_than_one_letter_is_punctuation() {
    assert_eq!(to_token("zh"), PinyinToken::Punctuation("zh".to_string()));
    assert_eq!(to_token("a "), PinyinToken::Punctuation("a ".to_string()));
    assert_eq!(to_token(" a"), PinyinToken::Punctuation(" a".to_string()));
}

#[test]
fn the_empty_cluster_is_punctuation() {
    assert_eq!(to_token(""), PinyinToken::Punctuation(String::new()));
}

#[test]
fn to_str_writes_the_letter_and_its_marks() {
    let m = Alph { alphabet: Alphabet::M, diacritics: vec![Diacritic::Acute], capitalized: false };
    assert_eq!(m.to_str(false, false), "m\u{301}");
    assert_eq!(m.to_str(true, false), "m\u{301}");
    let u = Alph {
        alphabet: Alphabet::U,
        diacritics: vec![Diacritic::Diaeresis, Diacritic::Caron],
        capitalized: false,
    };
    assert_eq!(u.to_str(false, false), "u\u{308}\u{30c}");
    let b = Alph { alphabet: Alphabet::B, diacritics: vec![], capitalized: false };
    assert_eq!(b.to_str(false, false), "b");
    let eng = Alph { alphabet: Alphabet::Eng, diacritics: vec![], capitalized: true };
    assert_eq!(eng.to_str(true, false), "\u{14a}");
    assert_eq!(eng.to_str(false, false), "\u{14b}");
}

#[test]
fn to_str_keeps_a_capital_only_where_capitals_are_preserved() {
    let n = Alph { alphabet: Alphabet::N, diacritics: vec![Diacritic::Caron], capitalized: true };
    assert_eq!(n.to_str(true, false), "N\u{30c}");
    assert_eq!(n.to_str(false, false), "n\u{30c}");
}

#[test]
fn to_str_is_the_same_in_strict_mode() {
    let z = Alph {
        alphabet: Alphabet::Z,
        diacritics: vec![Diacritic::Circumflex, Diacritic::Grave],
        capitalized: true,
    };
    assert_eq!(z.to_str(true, true), "Z\u{302}\u{300}");
    assert_eq!(z.to_str(true, true), z.to_str(true, false));
    assert_eq!(z.to_str(false, true), z.to_str(false, false));
}

#[test]
fn a_letter_shown_and_read_again_is_the_same_letter() {
    for (a, _, _) in alphabet() {
        for (d, _) in marks() {
            for capitalized in [false, true] {
                let alph = Alph { alphabet: a, diacritics: vec![d, Diacritic::Acute], capitalized };
                assert_eq!(to_token(&alph.to_str(true, false)), PinyinToken::Alph(alph.clone()));
                let small = Alph { capitalized: false, ..alph.clone() };
                assert_eq!(to_token(&alph.to_str(false, false)), PinyinToken::Alph(small));
            }
        }
    }
}
