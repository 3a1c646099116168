//! From a text to its tokens.

use crate::pinyin_token::{classify, only_passthrough, texts, to_token, PinyinToken, Token};
use unicode_segmentation::UnicodeSegmentation;
use vstd::prelude::*;

verus! {

/// The extended grapheme clusters of a text, in the order in which they stand in it, as
/// the crate unicode-segmentation cuts them.
pub uninterp spec fn grapheme_clusters(text: Seq<char>) -> Seq<Seq<char>>;

/// The tokens of a text: its grapheme clusters, each classified.
pub open spec fn tokens_of(text: Seq<char>) -> Seq<Token> {
    grapheme_clusters(text).map_values(|cluster: Seq<char>| classify(cluster))
}

/// What each token of `tokens` is.
pub open spec fn views(tokens: Seq<PinyinToken>) -> Seq<Token> {
    tokens.map_values(|token: PinyinToken| token@)
}

/// `UnicodeSegmentation::graphemes` of the crate unicode-segmentation, asked for extended
/// clusters. Its iterator cuts the text at the cluster boundaries of Unicode and hands out
/// the pieces from front to back, so the pieces in their order are the clusters of the
/// text, and put together again they are the text.
#[verifier::external_body]
fn graphemes(s: &str) -> (clusters: Vec<&str>)
    ensures
        clusters@.map_values(|cluster: &str| cluster@) == grapheme_clusters(s@),
        clusters@.map_values(|cluster: &str| cluster@).flatten() == s@,
{
    UnicodeSegmentation::graphemes(s, true).collect()
}

/// Classifies each of the clusters.
pub fn classify_clusters(clusters: &Vec<&str>) -> (tokens: Vec<PinyinToken>)
    ensures
        views(tokens@) == clusters@.map_values(|cluster: &str| classify(cluster@)),
{
    let mut tokens: Vec<PinyinToken> = Vec::new();
    let n: usize = clusters.len();
    let mut i: usize = 0;
    while i < n
        invariant
            i <= n,
            n == clusters@.len(),
            tokens@.len() == i,
            forall|k: int| 0 <= k < i ==> (#[trigger] tokens@[k])@ == classify(clusters@[k]@),
        decreases n - i,
    {
        tokens.push(to_token(clusters[i]));
        i = i + 1;
    }
    assert(views(tokens@) =~= clusters@.map_values(|cluster: &str| classify(cluster@)));
    tokens
}

/// Cuts a text into grapheme clusters and classifies each of them. Where the text holds
/// nothing but punctuation and white space, the texts of the tokens, put together, are the
/// text.
pub fn tokenize(s: &str) -> (tokens: Vec<PinyinToken>)
    ensures
        views(tokens@) == tokens_of(s@),
        only_passthrough(views(tokens@)) ==> texts(views(tokens@)).flatten() == s@,
{
    let clusters = graphemes(s);
    let tokens = classify_clusters(&clusters);
    assert(views(tokens@) =~= tokens_of(s@));
    proof {
        if only_passthrough(views(tokens@)) {
            assert forall|i: int| 0 <= i < tokens@.len() implies views(tokens@)[i].text()
                == grapheme_clusters(s@)[i] by {
                assert(views(tokens@)[i].is_passthrough());
            }
            assert(texts(views(tokens@)) =~= grapheme_clusters(s@));
        }
    }
    tokens
}

} // verus!
