//! A law of list patterns.

use crate::grammar::basics::{expect_one, expect_upname, one, series};
use crate::grammar::patterns::{
    bare_pattern, bit_string_pattern, constructor_arg, constructor_arg_from, constructor_args,
    constructor_pattern, list_of, list_pattern, pattern, pattern_from, pattern_segment,
    pattern_segment_from, patterns, starting_at, tail_pattern, tuple_pattern,
};
use crate::laws::trees::all_of_a_series;
use crate::model::{CallArgView, PatternView, SegmentView, Text};
use crate::stream::{ahead, from, next, peek, peek_second, Cursor, Toks};
use crate::token::Tok;
use vstd::prelude::*;

verus! {

/// Whether each list in a pattern, however deep, ends in a variable, in a discard or in the empty
/// list.
pub open spec fn has_proper_lists(pat: PatternView) -> bool
    decreases pat,
{
    match pat {
        PatternView::Let { pattern, .. } => has_proper_lists(*pattern),
        PatternView::Cons { head, tail, .. } => {
            &&& has_proper_lists(*head)
            &&& has_proper_lists(*tail)
            &&& *tail is Cons || *tail is Nil || *tail is Var || *tail is Discard
        },
        PatternView::Constructor { args, .. } => forall|i: int|
            0 <= i < args.len() ==> has_proper_lists((#[trigger] args[i]).value),
        PatternView::Tuple { elems, .. } => forall|i: int|
            0 <= i < elems.len() ==> has_proper_lists(#[trigger] elems[i]),
        PatternView::BitString { segments, .. } => forall|i: int|
            0 <= i < segments.len() ==> has_proper_lists(*(#[trigger] segments[i]).value),
        _ => true,
    }
}

/// Each list in a pattern, however deep, ends in a variable, in a discard or in the empty list.
pub proof fn lists_end_properly(t: Toks, c: Cursor)
    ensures
        pattern(t, c).res matches Ok(Some(pat)) ==> has_proper_lists(pat),
    decreases ahead(t, c), 2nat,
{
    lemma_bare(t, c);
}

proof fn lemma_bare(t: Toks, c: Cursor)
    ensures
        bare_pattern(t, c).res matches Ok(Some(pat)) ==> has_proper_lists(pat),
    decreases ahead(t, c), 1nat,
{
    let to = next(t, c);
    match peek(t, c) {
        Some((start, Tok::Name { name }, _)) => {
            lemma_constructor(t, next(t, to), Some((start, name@)));
        },
        Some((_, Tok::UpName { .. }, _)) => {
            lemma_constructor(t, c, None);
        },
        Some((start, Tok::Tuple, _)) => {
            lemma_patterns(t, expect_one(t, to, Tok::Lpar).to);
            assert(tuple_pattern(t, to, start).res matches Ok(pat) ==> has_proper_lists(pat));
        },
        Some((start, Tok::LtLt, _)) => {
            lemma_bit_string(t, to, start);
        },
        Some((start, Tok::Lsqb, _)) => {
            lemma_list(t, to, start);
        },
        _ => {},
    }
}

proof fn lemma_constructor(t: Toks, c: Cursor, module: Option<(usize, Text)>)
    ensures
        constructor_pattern(t, c, module).res matches Ok(pat) ==> has_proper_lists(pat),
    decreases ahead(t, c), 0nat,
{
    let upname = expect_upname(t, c);
    if let Ok((_, _, end)) = upname.res {
        lemma_constructor_args(t, upname.to, end);
    }
}

proof fn lemma_constructor_args(t: Toks, c: Cursor, end: usize)
    ensures
        constructor_args(t, c, end).res matches Ok((args, _, _)) ==> forall|i: int|
            0 <= i < args.len() ==> has_proper_lists((#[trigger] args[i]).value),
    decreases ahead(t, c), 5nat,
{
    if one(t, c, Tok::Lpar) is Some {
        let inner = next(t, c);
        let p = constructor_arg_from(t, inner);
        let holds = |arg: CallArgView<PatternView>| has_proper_lists(arg.value);
        assert forall|d: Cursor| (#[trigger] p(d)).res matches Ok(Some(value)) ==> holds(value) by {
            lemma_constructor_arg(t, from(t, inner, d));
        }
        all_of_a_series(p, t, Some(Tok::Comma), Seq::empty(), inner, holds);
        if let Ok(args) = series(p, t, Some(Tok::Comma), Seq::empty(), inner).res {
            assert forall|i: int| 0 <= i < args.len() implies has_proper_lists(
                (#[trigger] args[i]).value,
            ) by {
                assert(holds(args[i]));
            }
        }
    }
}

proof fn lemma_constructor_arg(t: Toks, c: Cursor)
    ensures
        constructor_arg(t, c).res matches Ok(Some(arg)) ==> has_proper_lists(arg.value),
    decreases ahead(t, c), 3nat,
{
    match (peek(t, c), peek_second(t, c)) {
        (Some((_, Tok::Name { .. }, _)), Some((_, Tok::Colon, _))) => {
            lists_end_properly(t, next(t, next(t, c)));
        },
        _ => {
            lists_end_properly(t, c);
        },
    }
}

proof fn lemma_patterns(t: Toks, c: Cursor)
    ensures
        patterns(t, c).res matches Ok(all) ==> forall|i: int|
            0 <= i < all.len() ==> has_proper_lists(#[trigger] all[i]),
    decreases ahead(t, c), 4nat,
{
    let p = pattern_from(t, c);
    let holds = |pat: PatternView| has_proper_lists(pat);
    assert forall|d: Cursor| (#[trigger] p(d)).res matches Ok(Some(value)) ==> holds(value) by {
        lists_end_properly(t, from(t, c, d));
    }
    all_of_a_series(p, t, Some(Tok::Comma), Seq::empty(), c, holds);
    if let Ok(all) = patterns(t, c).res {
        assert forall|i: int| 0 <= i < all.len() implies has_proper_lists(#[trigger] all[i]) by {
            assert(holds(all[i]));
        }
    }
}

proof fn lemma_bit_string(t: Toks, c: Cursor, start: usize)
    ensures
        bit_string_pattern(t, c, start).res matches Ok(pat) ==> has_proper_lists(pat),
    decreases ahead(t, c), 5nat,
{
    let p = pattern_segment_from(t, c);
    let holds = |segment: SegmentView<PatternView>| has_proper_lists(*segment.value);
    assert forall|d: Cursor| (#[trigger] p(d)).res matches Ok(Some(value)) ==> holds(value) by {
        lists_end_properly(t, from(t, c, d));
        assert(pattern_segment(t, from(t, c, d)).res matches Ok(Some(value)) ==> holds(value));
    }
    all_of_a_series(p, t, Some(Tok::Comma), Seq::empty(), c, holds);
    if let Ok(segments) = series(p, t, Some(Tok::Comma), Seq::empty(), c).res {
        assert forall|i: int| 0 <= i < segments.len() implies has_proper_lists(
            *(#[trigger] segments[i]).value,
        ) by {
            assert(holds(segments[i]));
        }
    }
}

proof fn lemma_list(t: Toks, c: Cursor, start: usize)
    ensures
        list_pattern(t, c, start).res matches Ok(pat) ==> has_proper_lists(pat),
    decreases ahead(t, c), 5nat,
{
    lemma_patterns(t, c);
    let elems = patterns(t, c);
    lists_end_properly(t, from(t, c, next(t, elems.to)));
    if let Ok(elements) = elems.res {
        assert forall|tail: Option<Option<PatternView>>, end: usize|
            (tail matches Some(Some(pat)) ==> pat is Var || pat is Discard) implies has_proper_lists(
            starting_at(#[trigger] list_of(elements, tail_pattern(tail, end)), start),
        ) by {
            lemma_list_of(elements, tail_pattern(tail, end));
        }
    }
}

proof fn lemma_list_of(elements: Seq<PatternView>, tail: PatternView)
    requires
        forall|i: int| 0 <= i < elements.len() ==> has_proper_lists(#[trigger] elements[i]),
        tail is Nil || tail is Var || tail is Discard,
    ensures
        has_proper_lists(list_of(elements, tail)),
        elements.len() > 0 ==> list_of(elements, tail) is Cons,
    decreases elements.len(),
{
    if elements.len() > 0 {
        assert(has_proper_lists(elements[0]));
        lemma_list_of(elements.drop_first(), tail);
    }
}

} // verus!
