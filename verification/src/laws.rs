//! What holds of the parser whatever the tokens are.

use crate::config::PinyinParser;
use crate::glyph::Diacritic;
use crate::machine::{
    kept_texts, next_kept, Machine, Opening, ParserState, SpellingInitial, Unimplemented, ZCS,
};
use crate::pinyin_token::{texts, Letter, Token};
use vstd::prelude::*;

verus! {

/// A step reads one token or none and never moves the read position back; it leaves the
/// tokens and the switches alone, and a step that fails changes nothing at all.
pub proof fn lemma_step_advances(m: Machine)
    ensures
        m.step().1.position == m.position || m.step().1.position == m.position + 1,
        m.step().1.tokens == m.tokens,
        m.step().1.configs == m.configs,
        m.wf() ==> m.step().1.wf(),
        m.step().0 is Failed ==> m.step().1 == m,
{
}

/// A step keeps what holds of the parser at every moment.
pub proof fn lemma_step_keeps_inv(m: Machine)
    requires
        m.inv(),
    ensures
        m.step().1.inv(),
{
    let after = m.step().1;
    match m.state {
        ParserState::BeforeWordInitial => {
            if after.state is InitialParsed {
                let initial = after.state->InitialParsed_0;
                if after.position == m.position {
                    assert(after.settled_over(initial, 0));
                } else {
                    assert(after.settled_over(initial, 1));
                }
            }
        },
        ParserState::ZCSParsed(zcs) => {
            let initial = after.state->InitialParsed_0;
            if after.position == m.position {
                assert(after.settled_over(initial, 1));
            } else {
                assert(after.settled_over(initial, 2));
            }
        },
        ParserState::InitialParsed(_) => {},
    }
}

/// A call for a unit never moves the read position back, and leaves the tokens and the
/// switches alone.
pub proof fn lemma_next_advances(m: Machine)
    ensures
        m.next().1.position >= m.position,
        m.next().1.tokens == m.tokens,
        m.next().1.configs == m.configs,
        m.wf() ==> m.next().1.wf(),
    decreases m.tokens.len() - m.position, m.state.rank(),
{
    lemma_step_advances(m);
    if m.step().0 is Pending {
        lemma_next_advances(m.step().1);
    }
}

/// A call for a unit keeps what holds of the parser at every moment.
pub proof fn lemma_next_keeps_inv(m: Machine)
    requires
        m.inv(),
    ensures
        m.next().1.inv(),
    decreases m.tokens.len() - m.position, m.state.rank(),
{
    lemma_step_keeps_inv(m);
    if m.step().0 is Pending {
        lemma_next_keeps_inv(m.step().1);
    }
}

/// A call that fails leaves the parser where the next call fails in the same way and
/// changes nothing.
pub proof fn lemma_failure_repeats(m: Machine)
    ensures
        m.next().0 matches Some(Err(what)) ==> m.next().1.next() == (
            Some(Err::<Seq<char>, Unimplemented>(what)),
            m.next().1,
        ),
    decreases m.tokens.len() - m.position, m.state.rank(),
{
    if m.step().0 is Pending {
        lemma_failure_repeats(m.step().1);
    }
}

/// Once the initial is settled, every call fails on the final and changes nothing.
pub proof fn lemma_next_after_initial(m: Machine)
    requires
        m.state is InitialParsed,
    ensures
        m.next() == (Some(Err::<Seq<char>, Unimplemented>(Unimplemented::FinalAndTone)), m),
{
}

/// After `z`, `c` or `s`, the next call settles the initial and fails on the final: the
/// digraph with one more token read where an unmarked `h` follows, the letter alone with
/// nothing more read where anything else follows or the tokens end.
pub proof fn lemma_next_after_sibilant(m: Machine)
    requires
        m.wf(),
        m.state is ZCSParsed,
    ensures
        m.next().0 == Some(Err::<Seq<char>, Unimplemented>(Unimplemented::FinalAndTone)),
        m.position < m.tokens.len() && m.tokens[m.position as int].is_plain_h() ==> m.next().1
            == m.advanced().settled(m.state->ZCSParsed_0.digraph()),
        !(m.position < m.tokens.len() && m.tokens[m.position as int].is_plain_h()) ==> m.next().1
            == m.settled(m.state->ZCSParsed_0.plain()),
{
    reveal_with_fuel(Machine::next, 2);
}

/// Passing over the dropped tokens ends at the first token that is kept, or at the end.
pub proof fn lemma_next_kept(configs: PinyinParser, tokens: Seq<Token>, from: nat)
    requires
        from <= tokens.len(),
    ensures
        from <= next_kept(configs, tokens, from) <= tokens.len(),
        forall|i: int| from <= i < next_kept(configs, tokens, from) ==> configs.drops(tokens[i]),
        next_kept(configs, tokens, from) < tokens.len() ==> !configs.drops(
            tokens[next_kept(configs, tokens, from) as int],
        ),
    decreases tokens.len() - from,
{
    if from < tokens.len() && configs.drops(tokens[from as int]) {
        lemma_next_kept(configs, tokens, from + 1);
    }
}

/// Before a syllable, stepping until a step is not pending comes to what looking ahead
/// tells.
pub proof fn lemma_next_by_lookahead(m: Machine)
    requires
        m.wf(),
        m.state is BeforeWordInitial,
    ensures
        m.next() == m.next_by_lookahead(),
    decreases m.tokens.len() - m.position,
{
    if m.position < m.tokens.len() {
        if m.configs.drops(m.tokens[m.position as int]) {
            lemma_next_by_lookahead(m.advanced());
        } else if m.step().1.state is ZCSParsed {
            lemma_next_after_sibilant(m.step().1);
        } else {
            reveal_with_fuel(Machine::next, 2);
        }
    }
}

/// Units are handed out between syllables only: a call that hands out a unit, or finds the
/// end of the input, began before a syllable and ends before one. The input ends exactly
/// where no syllable is under way and every token that is left is dropped; every token has
/// been read then, and the calls after it find the end again.
pub proof fn lemma_end_of_input(m: Machine)
    requires
        m.wf(),
    ensures
        !(m.next().0 matches Some(Err(_))) ==> m.state is BeforeWordInitial
            && m.next().1.state is BeforeWordInitial,
        m.next().0 is None <==> m.state is BeforeWordInitial && m.next_kept(m.position)
            == m.tokens.len(),
        m.next().0 is None ==> m.next().1.position == m.tokens.len(),
        m.next().0 is None ==> m.next().1.next() == (
            None::<Result<Seq<char>, Unimplemented>>,
            m.next().1,
        ),
{
    match m.state {
        ParserState::BeforeWordInitial => {
            lemma_next_by_lookahead(m);
            lemma_next_kept(m.configs, m.tokens, m.position);
        },
        ParserState::ZCSParsed(_) => {
            reveal_with_fuel(Machine::next, 2);
        },
        ParserState::InitialParsed(_) => {},
    }
}

/// The tokens read for a settled initial are those that write it: none for a syllable
/// that opens on a vowel, two for a digraph written with `h`, one for every other
/// initial, a digraph under a circumflex among them.
pub proof fn lemma_settled_width(m: Machine, initial: SpellingInitial, width: nat)
    requires
        m.wf(),
        m.settled_over(initial, width),
    ensures
        initial.written_as(m.tokens.subrange(m.position - width, m.position as int)),
        width == 0 <==> initial == SpellingInitial::ZeroAEO,
        width == 2 ==> initial == SpellingInitial::ZH || initial == SpellingInitial::CH || initial
            == SpellingInitial::SH,
        width <= 2,
{
}

/// The read position moves on by exactly the tokens that write the initial.
///
/// Before a syllable, where the first token that is not dropped is a letter that opens a
/// syllable with an initial, the next call settles that initial, and from where the
/// syllable began it has read the tokens that write the initial and no more: none for a
/// syllable that opens on a vowel, two for a digraph written with `h`, one for every other
/// initial. A call ends with an initial settled in no other case.
pub proof fn lemma_initial_advance(m: Machine)
    requires
        m.wf(),
        m.state is BeforeWordInitial,
    ensures
        ({
            let at = m.next_kept(m.position) as int;
            let after = m.next().1;
            &&& m.position <= at <= m.tokens.len()
            &&& after.state is InitialParsed <==> at < m.tokens.len() && m.initial_at(at) is Some
            &&& after.state matches ParserState::InitialParsed(initial) ==> {
                let width = after.position - at;
                &&& m.initial_at(at) == Some((initial, width as nat))
                &&& initial.written_as(m.tokens.subrange(at, after.position as int))
                &&& width == 0 <==> initial == SpellingInitial::ZeroAEO
                &&& width == 2 <==> (m.tokens[at]->Alph_0).opening() is Sibilant && at + 1
                    < m.tokens.len() && m.tokens[at + 1].is_plain_h()
                &&& 0 <= width <= 2
            }
        }),
{
    lemma_next_by_lookahead(m);
    lemma_next_kept(m.configs, m.tokens, m.position);
}

/// On `z`, `c` and `s`, a circumflex means the digraph wherever the marks can stand
/// together, and nothing else does.
pub proof fn lemma_circumflex_is_digraph(letter: Letter, zcs: ZCS)
    ensures
        letter.is_valid() && letter.diacritics.contains(Diacritic::Circumflex)
            ==> letter.sibilant(zcs) == Opening::Initial(zcs.digraph()),
        letter.sibilant(zcs) is Initial ==> letter.diacritics == seq![Diacritic::Circumflex],
{
    assert(seq![Diacritic::Circumflex].len() == 1);
}

/// The units from here on are the unit of the next call, where it hands one out, and the
/// units from there on.
pub proof fn lemma_units_by_next(m: Machine)
    ensures
        m.units() == match m.next().0 {
            Some(Ok(unit)) => seq![unit] + m.next().1.units(),
            _ => Seq::empty(),
        },
    decreases m.tokens.len() - m.position, m.state.rank(),
{
    if m.step().0 is Pending {
        lemma_units_by_next(m.step().1);
    }
}

/// There are at most as many units as tokens left to read.
pub proof fn lemma_units_bounded(m: Machine)
    requires
        m.wf(),
    ensures
        m.units().len() <= m.tokens.len() - m.position,
    decreases m.tokens.len() - m.position, m.state.rank(),
{
    lemma_step_advances(m);
    if m.step().0 is Pending || m.step().0 is Unit {
        lemma_units_bounded(m.step().1);
    }
}

/// Where only punctuation and white space are left to read, the units are the texts of
/// the tokens that are not dropped, in their order, and nothing else.
pub proof fn lemma_passthrough_units(m: Machine)
    requires
        m.wf(),
        m.state is BeforeWordInitial,
        forall|i: int| m.position <= i < m.tokens.len() ==> (#[trigger] m.tokens[i]).is_passthrough(),
    ensures
        m.units() == kept_texts(m.configs, m.tokens.skip(m.position as int)),
    decreases m.tokens.len() - m.position,
{
    let rest = m.tokens.skip(m.position as int);
    let kept = |token: Token| !m.configs.drops(token);
    let text = |token: Token| token.text();
    if m.position < m.tokens.len() {
        let token = m.tokens[m.position as int];
        let tail = m.tokens.skip(m.position as int + 1);
        assert(token.is_passthrough());
        lemma_passthrough_units(m.advanced());
        assert(rest =~= seq![token] + tail);
        Seq::filter_distributes_over_add(seq![token], tail, kept);
        assert(seq![token].filter(kept) =~= if kept(token) {
            seq![token]
        } else {
            Seq::empty()
        }) by {
            reveal_with_fuel(Seq::filter, 2);
            assert(seq![token].drop_last() =~= Seq::<Token>::empty());
        }
        assert(rest.filter(kept).map_values(text) =~= seq![token].filter(kept).map_values(text)
            + tail.filter(kept).map_values(text));
    } else {
        assert(rest =~= Seq::<Token>::empty());
        assert(rest.filter(kept) =~= Seq::<Token>::empty()) by {
            reveal_with_fuel(Seq::filter, 1);
        }
    }
}

/// With punctuation and white space both preserved, a text of nothing else comes out as it
/// went in: the units are the texts of the tokens, one for one.
pub proof fn lemma_passthrough_round_trip(m: Machine)
    requires
        m.wf(),
        m.state is BeforeWordInitial,
        m.configs._preserve_punctuations,
        m.configs._preserve_spaces,
        forall|i: int| m.position <= i < m.tokens.len() ==> (#[trigger] m.tokens[i]).is_passthrough(),
    ensures
        m.units() == texts(m.tokens.skip(m.position as int)),
{
    let rest = m.tokens.skip(m.position as int);
    let kept = |token: Token| !m.configs.drops(token);
    lemma_passthrough_units(m);
    assert(rest.filter(kept) =~= rest) by {
        lemma_filter_all(rest, kept);
    }
}

/// A filter that every item passes keeps the sequence as it is.
proof fn lemma_filter_all<A>(s: Seq<A>, pred: spec_fn(A) -> bool)
    requires
        forall|i: int| 0 <= i < s.len() ==> pred(#[trigger] s[i]),
    ensures
        s.filter(pred) == s,
    decreases s.len(),
{
    reveal_with_fuel(Seq::filter, 1);
    if s.len() > 0 {
        lemma_filter_all(s.drop_last(), pred);
        assert(s.drop_last().push(s.last()) =~= s);
    }
}

} // verus!
