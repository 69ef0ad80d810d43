//! Where patterns and the errors in them are located.

use crate::ast::Pattern;
use crate::grammar::basics::{expect_one, expect_upname, one, Step};
use crate::grammar::patterns::{
    bare_pattern, bit_string_pattern, constructor_arg, constructor_arg_from, constructor_args,
    constructor_pattern, list_of, list_pattern, pattern, pattern_from, pattern_number,
    pattern_segment, pattern_segment_arg_in, pattern_segment_from, patterns, starting_at,
    tail_pattern, tuple_pattern,
};
use crate::laws::spans::{all_fit, error_fits, errors_of_a_series, within};
use crate::laws::spans::segments::errors_in_segments_are_located;
use crate::laws::trees::all_of_a_series;
use crate::location::location_in;
use crate::model::{PatternView, Text};
use crate::stream::{ahead, from, next, peek, peek_second, Cursor, Toks};
use crate::token::Tok;
use vstd::prelude::*;

verus! {

/// Whether the pattern that a step finds, or its error, is located within a bound.
pub open spec fn pattern_fits(bound: nat, step: Step<Option<PatternView>>) -> bool {
    &&& error_fits(bound, step)
    &&& step.res matches Ok(Some(pat)) ==> within(bound, pat.location())
}

/// Whether the pattern that a step has to find, or its error, is located within a bound.
pub open spec fn needed_pattern_fits(bound: nat, step: Step<PatternView>) -> bool {
    &&& error_fits(bound, step)
    &&& step.res matches Ok(pat) ==> within(bound, pat.location())
}

/// A pattern and the errors in it are located within the bound of the tokens.
pub proof fn patterns_are_located(bound: nat, t: Toks, c: Cursor)
    requires
        all_fit(bound, t),
    ensures
        pattern_fits(bound, pattern(t, c)),
    decreases ahead(t, c), 2nat,
{
    lemma_bare(bound, t, c);
}

proof fn lemma_bare(bound: nat, t: Toks, c: Cursor)
    requires
        all_fit(bound, t),
    ensures
        pattern_fits(bound, bare_pattern(t, c)),
    decreases ahead(t, c), 1nat,
{
    let to = next(t, c);
    match peek(t, c) {
        Some((start, Tok::Name { name }, _)) => {
            lemma_constructor(bound, t, next(t, to), Some((start, name@)));
        },
        Some((_, Tok::UpName { .. }, _)) => {
            lemma_constructor(bound, t, c, None);
        },
        Some((start, Tok::Tuple, _)) => {
            lemma_tuple(bound, t, to, start);
        },
        Some((start, Tok::LtLt, _)) => {
            lemma_bit_string(bound, t, to, start);
        },
        Some((start, Tok::Lsqb, _)) => {
            lemma_list(bound, t, to, start);
        },
        _ => {},
    }
}

proof fn lemma_tuple(bound: nat, t: Toks, c: Cursor, start: usize)
    requires
        all_fit(bound, t),
        start <= bound,
    ensures
        needed_pattern_fits(bound, tuple_pattern(t, c, start)),
    decreases ahead(t, c), 5nat,
{
    lists_of_patterns_are_located(bound, t, expect_one(t, c, Tok::Lpar).to);
}

proof fn lemma_bit_string(bound: nat, t: Toks, c: Cursor, start: usize)
    requires
        all_fit(bound, t),
        start <= bound,
    ensures
        needed_pattern_fits(bound, bit_string_pattern(t, c, start)),
    decreases ahead(t, c), 5nat,
{
    let p = pattern_segment_from(t, c);
    assert forall|d: Cursor| error_fits(bound, #[trigger] p(d)) by {
        lemma_segment(bound, t, from(t, c, d));
    }
    errors_of_a_series(bound, p, t, Some(Tok::Comma), Seq::empty(), c);
}

proof fn lemma_segment(bound: nat, t: Toks, c: Cursor)
    requires
        all_fit(bound, t),
    ensures
        error_fits(bound, pattern_segment(t, c)),
    decreases ahead(t, c), 3nat,
{
    patterns_are_located(bound, t, c);
    errors_in_segments_are_located(
        bound,
        pattern(t, c),
        pattern_segment_arg_in(t),
        pattern_number(),
        location_in::<Pattern>(),
        t,
    );
}

proof fn lemma_list(bound: nat, t: Toks, c: Cursor, start: usize)
    requires
        all_fit(bound, t),
        start <= bound,
    ensures
        needed_pattern_fits(bound, list_pattern(t, c, start)),
    decreases ahead(t, c), 5nat,
{
    lists_of_patterns_are_located(bound, t, c);
    let elems = patterns(t, c);
    patterns_are_located(bound, t, from(t, c, next(t, elems.to)));
    if let Ok(elements) = elems.res {
        assert forall|tail: Option<Option<PatternView>>, end: usize|
            end <= bound && (tail matches Some(Some(pat)) ==> within(bound, pat.location()))
                && end > 0 implies within(
            bound,
            starting_at(#[trigger] list_of(elements, tail_pattern(tail, end)), start).location(),
        ) by {
            if elements.len() > 0 {
                assert(within(bound, elements[0].location()));
            }
        }
    }
}

proof fn lemma_constructor(bound: nat, t: Toks, c: Cursor, module: Option<(usize, Text)>)
    requires
        all_fit(bound, t),
        module matches Some((start, _)) ==> start <= bound,
    ensures
        needed_pattern_fits(bound, constructor_pattern(t, c, module)),
    decreases ahead(t, c), 0nat,
{
    let upname = expect_upname(t, c);
    if let Ok((_, _, end)) = upname.res {
        lemma_constructor_args(bound, t, upname.to, end);
    }
}

proof fn lemma_constructor_args(bound: nat, t: Toks, c: Cursor, upname_end: usize)
    requires
        all_fit(bound, t),
        upname_end <= bound,
    ensures
        error_fits(bound, constructor_args(t, c, upname_end)),
        constructor_args(t, c, upname_end).res matches Ok((_, _, end)) ==> end <= bound,
    decreases ahead(t, c), 5nat,
{
    if one(t, c, Tok::Lpar) is Some {
        let inner = next(t, c);
        let p = constructor_arg_from(t, inner);
        assert forall|d: Cursor| error_fits(bound, #[trigger] p(d)) by {
            lemma_constructor_arg(bound, t, from(t, inner, d));
        }
        errors_of_a_series(bound, p, t, Some(Tok::Comma), Seq::empty(), inner);
    }
}

proof fn lemma_constructor_arg(bound: nat, t: Toks, c: Cursor)
    requires
        all_fit(bound, t),
    ensures
        error_fits(bound, constructor_arg(t, c)),
    decreases ahead(t, c), 3nat,
{
    match (peek(t, c), peek_second(t, c)) {
        (Some((_, Tok::Name { .. }, _)), Some((_, Tok::Colon, _))) => {
            patterns_are_located(bound, t, next(t, next(t, c)));
        },
        _ => {
            patterns_are_located(bound, t, c);
        },
    }
}

/// Patterns with commas between them, and the errors in them, are located within the bound of the
/// tokens.
pub proof fn lists_of_patterns_are_located(bound: nat, t: Toks, c: Cursor)
    requires
        all_fit(bound, t),
    ensures
        error_fits(bound, patterns(t, c)),
        patterns(t, c).res matches Ok(all) ==> forall|i: int|
            0 <= i < all.len() ==> within(bound, (#[trigger] all[i]).location()),
    decreases ahead(t, c), 4nat,
{
    let p = pattern_from(t, c);
    let holds = |pat: PatternView| within(bound, pat.location());
    assert forall|d: Cursor|
        error_fits(bound, #[trigger] p(d)) && (p(d).res matches Ok(Some(pat)) ==> holds(pat)) by {
        patterns_are_located(bound, t, from(t, c, d));
    }
    errors_of_a_series(bound, p, t, Some(Tok::Comma), Seq::empty(), c);
    all_of_a_series(p, t, Some(Tok::Comma), Seq::empty(), c, holds);
    if let Ok(all) = patterns(t, c).res {
        assert forall|i: int| 0 <= i < all.len() implies within(
            bound,
            (#[trigger] all[i]).location(),
        ) by {
            assert(holds(all[i]));
        }
    }
}

} // verus!
