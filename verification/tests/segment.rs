use pinyin_parser::glyph::{Alphabet, Diacritic};
use pinyin_parser::pinyin_token::{Alph, PinyinToken};
use pinyin_parser::segment::{classify_clusters, tokenize};

fn plain(alphabet: Alphabet) -> PinyinToken {
    PinyinToken::Alph(Alph { alphabet, diacritics: vec![], capitalized: false })
}

#[test]
fn tokenize_cuts_at_every_letter() {
    assert_eq!(tokenize("zh"), vec![plain(Alphabet::Z), plain(Alphabet::H)]);
}

#[test]
fn tokenize_of_nothing_is_nothing() {
    assert_eq!(tokenize(""), Vec::<PinyinToken>::new());
}

#[test]
fn tokenize_keeps_a_mark_with_its_letter() {
    assert_eq!(
        tokenize("ma\u{30c}"),
        vec![
            plain(Alphabet::M),
            PinyinToken::Alph(Alph {
                alphabet: Alphabet::A,
                diacritics: vec![Diacritic::Caron],
                capitalized: false,
            }),
        ]
    );
}

#[test]
fn tokenize_classifies_each_cluster() {
    assert_eq!(
        tokenize("N\u{1d0}, h\u{1ce}o\r\n\u{3002}"),
        vec![
            PinyinToken::Alph(Alph { alphabet: Alphabet::N, diacritics: vec![], capitalized: true }),
            PinyinToken::Alph(Alph {
                alphabet: Alphabet::I,
                diacritics: vec![Diacritic::Caron],
                capitalized: false,
            }),
            PinyinToken::Punctuation(",".to_string()),
            PinyinToken::Space(" ".to_string()),
            plain(Alphabet::H),
            PinyinToken::Alph(Alph {
                alphabet: Alphabet::A,
                diacritics: vec![Diacritic::Caron],
                capitalized: false,
            }),
            plain(Alphabet::O),
            PinyinToken::Space("\r\n".to_string()),
            PinyinToken::Punctuation("\u{3002}".to_string()),
        ]
    );
}

#[test]
fn tokenize_keeps_a_flag_as_one_cluster() {
    assert_eq!(
        tokenize("\u{1f1e8}\u{1f1f3}"),
        vec![PinyinToken::Punctuation("\u{1f1e8}\u{1f1f3}".to_string())]
    );
}

#[test]
fn classify_clusters_takes_each_cluster_as_it_is_given() {
    assert_eq!(
        classify_clusters(&vec!["zh", "a", " "]),
        vec![
            PinyinToken::Punctuation("zh".to_string()),
            plain(Alphabet::A),
            PinyinToken::Space(" ".to_string()),
        ]
    );
    assert_eq!(classify_clusters(&Vec::new()), Vec::<PinyinToken>::new());
}
