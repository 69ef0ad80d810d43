//! Patterns elsewhere.

use crate::ast::Pattern;
use crate::error::{ErrorView, ParseErrorType};
use crate::grammar::basics::{
    error_at, expect_one, expect_upname, failed, found, maybe_name, nothing, one, series, skip_one,
    something, Step,
};
use crate::grammar::patterns::{
    bare_pattern, bit_string_pattern, constructor_arg, constructor_arg_from, constructor_args,
    constructor_pattern, list_of, list_pattern, pattern, pattern_from, pattern_number,
    pattern_segment, pattern_segment_arg_in, pattern_segment_from, patterns, starting_at,
    tail_pattern, tuple_pattern,
};
use crate::laws::elsewhere::{series_elsewhere, Stretch};
use crate::laws::elsewhere::segments::segments_are_the_same_elsewhere;
use crate::laws::places::{advances, finds, moves, series_moves};
use crate::laws::places::patterns::{
    bare_pattern_is_found, bit_string_pattern_moves, constructor_arg_is_found,
    constructor_args_move, constructor_pattern_moves, pattern_is_found, pattern_segment_is_found,
    patterns_move, tuple_pattern_moves,
};
use crate::location::location_in;
use crate::model::{CallArgView, PatternView, Text};
use crate::stream::{ahead, next, peek, peek_second, token_at, Cursor, Toks};
use crate::token::Tok;
use vstd::prelude::*;

verus! {

/// Where the same tokens stand elsewhere, the same pattern is found.
pub proof fn patterns_are_the_same_elsewhere(s: Stretch, c: Cursor)
    requires
        s.fits(),
        c.at <= s.here.len(),
    ensures
        s.same(pattern(s.here, c), pattern(s.there, s.across(c))),
    decreases ahead(s.here, c), 2nat,
{
    pattern_is_found(s.here, c);
    bare_pattern_is_found(s.here, c);
    lemma_bare_pattern(s, c);
}

pub(crate) proof fn lemma_bare_pattern(s: Stretch, c: Cursor)
    requires
        s.fits(),
        c.at <= s.here.len(),
    ensures
        s.same(bare_pattern(s.here, c), bare_pattern(s.there, s.across(c))),
    decreases ahead(s.here, c), 1nat,
{
    let t = s.here;
    let to = next(t, c);
    bare_pattern_is_found(t, c);
    match peek(t, c) {
        Some((start, Tok::Name { name }, _)) => {
            constructor_pattern_moves(t, next(t, to), Some((start, name@)));
            lemma_constructor_pattern(s, next(t, to), Some((start, name@)));
        },
        Some((_, Tok::UpName { .. }, _)) => {
            lemma_constructor_pattern(s, c, None);
        },
        Some((start, Tok::Tuple, _)) => {
            lemma_tuple_pattern(s, to, start);
        },
        Some((start, Tok::LtLt, _)) => {
            lemma_bit_string_pattern(s, to, start);
        },
        Some((start, Tok::Lsqb, _)) => {
            lemma_list_pattern(s, to, start);
        },
        _ => {},
    }
}

/// A pattern without a name behind `as` is the same elsewhere even if there are no more tokens
/// behind it, while there `as` follows.
pub(crate) proof fn lemma_bare_pattern_before_as(s: Stretch, c: Cursor)
    requires
        s.fits(),
        s.len == s.here.len(),
        c.at <= s.here.len(),
        something(bare_pattern(s.here, c)),
        bare_pattern(s.here, c).to.at == s.len,
        token_at(s.there, (s.len + s.shift) as int) matches Some((_, Tok::As, _)),
    ensures
        bare_pattern(s.there, s.across(c)) == (Step {
            res: bare_pattern(s.here, c).res,
            to: s.across(bare_pattern(s.here, c).to),
        }),
{
    let t = s.here;
    let to = next(t, c);
    match peek(t, c) {
        Some((start, Tok::Name { name }, _)) => {
            if one(t, to, Tok::Dot) is Some {
                lemma_constructor_pattern_before_as(s, next(t, to), Some((start, name@)));
            }
        },
        Some((_, Tok::UpName { .. }, _)) => {
            lemma_constructor_pattern_before_as(s, c, None);
        },
        Some((start, Tok::Tuple, _)) => {
            lemma_tuple_pattern(s, to, start);
        },
        Some((start, Tok::LtLt, _)) => {
            lemma_bit_string_pattern(s, to, start);
        },
        Some((start, Tok::Lsqb, _)) => {
            lemma_list_pattern(s, to, start);
        },
        _ => {},
    }
}

proof fn lemma_constructor_pattern_before_as(s: Stretch, c: Cursor, module: Option<(usize, Text)>)
    requires
        s.fits(),
        s.len == s.here.len(),
        c.at <= s.here.len(),
        constructor_pattern(s.here, c, module).res is Ok,
        constructor_pattern(s.here, c, module).to.at == s.len,
        token_at(s.there, (s.len + s.shift) as int) matches Some((_, Tok::As, _)),
    ensures
        constructor_pattern(s.there, s.across(c), module) == (Step {
            res: constructor_pattern(s.here, c, module).res,
            to: s.across(constructor_pattern(s.here, c, module).to),
        }),
{
    let t = s.here;
    let upname = expect_upname(t, c);
    if let Ok((_, _, end)) = upname.res {
        constructor_args_move(t, upname.to, end);
        if one(t, upname.to, Tok::Lpar) is Some {
            lemma_list_of_constructor_args(s, next(t, upname.to));
            lemma_constructor_args_in_parentheses(s, upname.to, end);
        }
    }
}

proof fn lemma_tuple_pattern(s: Stretch, c: Cursor, start: usize)
    requires
        s.fits(),
        c.at <= s.here.len(),
    ensures
        s.same_up_to_its_end(
            tuple_pattern(s.here, c, start),
            tuple_pattern(s.there, s.across(c), start),
        ),
    decreases ahead(s.here, c), 5nat,
{
    let t = s.here;
    tuple_pattern_moves(t, c, start);
    let lpar = expect_one(t, c, Tok::Lpar);
    patterns_move(t, lpar.to);
    lists_of_patterns_are_the_same_elsewhere(s, lpar.to);
}

proof fn lemma_bit_string_pattern(s: Stretch, c: Cursor, start: usize)
    requires
        s.fits(),
        c.at <= s.here.len(),
    ensures
        s.same_up_to_its_end(
            bit_string_pattern(s.here, c, start),
            bit_string_pattern(s.there, s.across(c), start),
        ),
    decreases ahead(s.here, c), 5nat,
{
    let t = s.here;
    bit_string_pattern_moves(t, c, start);
    lemma_pattern_segments(s, c);
}

proof fn lemma_pattern_segments(s: Stretch, c: Cursor)
    requires
        s.fits(),
        c.at <= s.here.len(),
    ensures
        moves(
            s.here,
            c,
            series(pattern_segment_from(s.here, c), s.here, Some(Tok::Comma), Seq::empty(), c),
        ),
        s.same(
            series(pattern_segment_from(s.here, c), s.here, Some(Tok::Comma), Seq::empty(), c),
            series(
                pattern_segment_from(s.there, s.across(c)),
                s.there,
                Some(Tok::Comma),
                Seq::empty(),
                s.across(c),
            ),
        ),
    decreases ahead(s.here, c), 4nat,
{
    let t = s.here;
    let p = pattern_segment_from(t, c);
    let q = pattern_segment_from(s.there, s.across(c));
    assert forall|d: Cursor| c.at <= d.at <= t.len() implies advances(t, d, #[trigger] p(d))
        && s.same(p(d), q(s.across(d))) by {
        pattern_segment_is_found(t, d);
        lemma_pattern_segment(s, d);
    }
    series_moves(p, t, Some(Tok::Comma), Seq::empty(), c);
    series_elsewhere(s, p, q, Some(Tok::Comma), Seq::empty(), c);
}

proof fn lemma_list_pattern(s: Stretch, c: Cursor, start: usize)
    requires
        s.fits(),
        c.at <= s.here.len(),
    ensures
        s.same_up_to_its_end(
            list_pattern(s.here, c, start),
            list_pattern(s.there, s.across(c), start),
        ),
    decreases ahead(s.here, c), 5nat,
{
    let (t, u) = (s.here, s.there);
    patterns_move(t, c);
    lists_of_patterns_are_the_same_elsewhere(s, c);
    let elems = patterns(t, c);
    let tail = pattern_from(t, c);
    let other_tail = pattern_from(u, s.across(c));
    let behind = next(t, elems.to);
    if one(t, elems.to, Tok::DotDot) is Some {
        pattern_is_found(t, behind);
        patterns_are_the_same_elsewhere(s, behind);
        assert(tail(behind) == pattern(t, behind));
        assert(s.same(tail(behind), other_tail(s.across(behind))));
    }
    lemma_list_with(s, c, (elems, patterns(u, s.across(c))), (tail, other_tail), start);
    lemma_list_is(t, c, start);
    lemma_list_is(u, s.across(c), start);
}

/// A list pattern behind its `[`, with the elements that were found and a way to look for the tail.
spec fn list_with(
    t: Toks,
    elems: Step<Seq<PatternView>>,
    tail_at: spec_fn(Cursor) -> Step<Option<PatternView>>,
    start: usize,
) -> Step<PatternView> {
    match elems.res {
        Err(error) => failed(error, elems.to),
        Ok(elements) => {
            let rest = if one(t, elems.to, Tok::DotDot) is Some {
                let pat = tail_at(next(t, elems.to));
                match pat.res {
                    Err(error) => failed(error, pat.to),
                    Ok(tail) => found(Some(tail), skip_one(t, pat.to, Tok::Comma)),
                }
            } else {
                found(None, elems.to)
            };
            match rest.res {
                Err(error) => failed(error, rest.to),
                Ok(tail) => {
                    let rsqb = expect_one(t, rest.to, Tok::Rsqb);
                    match rsqb.res {
                        Err(error) => failed(error, rsqb.to),
                        Ok((_, end)) => Step {
                            res: list_between(elements, tail, start, end),
                            to: rsqb.to,
                        },
                    }
                },
            }
        },
    }
}

/// A list pattern between its brackets.
spec fn list_between(
    elements: Seq<PatternView>,
    tail: Option<Option<PatternView>>,
    start: usize,
    end: usize,
) -> Result<PatternView, ErrorView> {
    match tail {
        Some(Some(pat)) if !(pat is Var || pat is Discard) => error_at(
            ParseErrorType::InvalidTailPattern,
            pat.location(),
            Cursor { at: 0, lost: false },
        ).res,
        _ => Ok(starting_at(list_of(elements, tail_pattern(tail, end)), start)),
    }
}

proof fn lemma_list_is(t: Toks, c: Cursor, start: usize)
    ensures
        list_pattern(t, c, start) == list_with(t, patterns(t, c), pattern_from(t, c), start),
{
}

proof fn lemma_list_with(
    s: Stretch,
    c: Cursor,
    elems: (Step<Seq<PatternView>>, Step<Seq<PatternView>>),
    tails: (
        spec_fn(Cursor) -> Step<Option<PatternView>>,
        spec_fn(Cursor) -> Step<Option<PatternView>>,
    ),
    start: usize,
)
    requires
        s.fits(),
        moves(s.here, c, elems.0),
        s.same(elems.0, elems.1),
        one(s.here, elems.0.to, Tok::DotDot) is Some ==> {
            let behind = next(s.here, elems.0.to);
            &&& moves(s.here, behind, (tails.0)(behind))
            &&& s.same((tails.0)(behind), (tails.1)(s.across(behind)))
        },
    ensures
        s.same_up_to_its_end(
            list_with(s.here, elems.0, tails.0, start),
            list_with(s.there, elems.1, tails.1, start),
        ),
{
}

proof fn lemma_constructor_pattern(s: Stretch, c: Cursor, module: Option<(usize, Text)>)
    requires
        s.fits(),
        c.at <= s.here.len(),
    ensures
        s.same(
            constructor_pattern(s.here, c, module),
            constructor_pattern(s.there, s.across(c), module),
        ),
    decreases ahead(s.here, c), 0nat,
{
    let t = s.here;
    constructor_pattern_moves(t, c, module);
    let upname = expect_upname(t, c);
    if let Ok((_, _, end)) = upname.res {
        constructor_args_move(t, upname.to, end);
        lemma_constructor_args(s, upname.to, end);
    }
}

proof fn lemma_constructor_args(s: Stretch, c: Cursor, upname_end: usize)
    requires
        s.fits(),
        c.at <= s.here.len(),
    ensures
        s.same(
            constructor_args(s.here, c, upname_end),
            constructor_args(s.there, s.across(c), upname_end),
        ),
    decreases ahead(s.here, c), 5nat,
{
    if one(s.here, c, Tok::Lpar) is Some {
        lemma_list_of_constructor_args(s, next(s.here, c));
        lemma_constructor_args_in_parentheses(s, c, upname_end);
    }
}

proof fn lemma_constructor_args_in_parentheses(s: Stretch, c: Cursor, upname_end: usize)
    requires
        s.fits(),
        one(s.here, c, Tok::Lpar) is Some,
        ({
            let inner = next(s.here, c);
            let args = constructor_arg_list(s.here, inner);
            &&& moves(s.here, inner, args)
            &&& s.same(args, constructor_arg_list(s.there, s.across(inner)))
        }),
    ensures
        s.same_up_to_its_end(
            constructor_args(s.here, c, upname_end),
            constructor_args(s.there, s.across(c), upname_end),
        ),
{
    let inner = next(s.here, c);
    let (args, others) = (
        constructor_arg_list(s.here, inner),
        constructor_arg_list(s.there, s.across(inner)),
    );
    lemma_closed_args(s, inner, args, others);
    assert(constructor_args(s.here, c, upname_end) == closed_args(s.here, args)) by {
        reveal(constructor_arg_list);
    }
    if s.encloses(closed_args(s.here, args)) {
        assert(one(s.there, s.across(c), Tok::Lpar) is Some);
        assert(next(s.there, s.across(c)) == s.across(inner));
        assert(constructor_args(s.there, s.across(c), upname_end) == closed_args(s.there, others))
            by {
            reveal(constructor_arg_list);
        }
    }
}

#[verifier::opaque]
spec fn constructor_arg_list(t: Toks, c: Cursor) -> Step<Seq<CallArgView<PatternView>>> {
    series(constructor_arg_from(t, c), t, Some(Tok::Comma), Seq::empty(), c)
}

spec fn closed_args(t: Toks, args: Step<Seq<CallArgView<PatternView>>>) -> Step<
    (Seq<CallArgView<PatternView>>, bool, usize),
> {
    match args.res {
        Err(error) => failed(error, args.to),
        Ok(arguments) => {
            let with_spread = one(t, args.to, Tok::DotDot) is Some;
            let last = if with_spread {
                skip_one(t, next(t, args.to), Tok::Comma)
            } else {
                args.to
            };
            let rpar = expect_one(t, last, Tok::Rpar);
            match rpar.res {
                Err(error) => failed(error, rpar.to),
                Ok((_, end)) => found((arguments, with_spread, end), rpar.to),
            }
        },
    }
}

proof fn lemma_closed_args(
    s: Stretch,
    c: Cursor,
    args: Step<Seq<CallArgView<PatternView>>>,
    others: Step<Seq<CallArgView<PatternView>>>,
)
    requires
        s.fits(),
        moves(s.here, c, args),
        s.same(args, others),
    ensures
        s.same_up_to_its_end(closed_args(s.here, args), closed_args(s.there, others)),
        moves(s.here, c, closed_args(s.here, args)),
        c.at < closed_args(s.here, args).to.at || closed_args(s.here, args).res is Err,
{
}

proof fn lemma_list_of_constructor_args(s: Stretch, c: Cursor)
    requires
        s.fits(),
        c.at <= s.here.len(),
    ensures
        moves(s.here, c, constructor_arg_list(s.here, c)),
        s.same(constructor_arg_list(s.here, c), constructor_arg_list(s.there, s.across(c))),
    decreases ahead(s.here, c), 4nat,
{
    let t = s.here;
    let p = constructor_arg_from(t, c);
    let q = constructor_arg_from(s.there, s.across(c));
    assert forall|d: Cursor| c.at <= d.at <= t.len() implies advances(t, d, #[trigger] p(d))
        && s.same(p(d), q(s.across(d))) by {
        constructor_arg_is_found(t, d);
        lemma_constructor_arg(s, d);
    }
    series_moves(p, t, Some(Tok::Comma), Seq::empty(), c);
    series_elsewhere(s, p, q, Some(Tok::Comma), Seq::empty(), c);
    reveal(constructor_arg_list);
}

proof fn lemma_constructor_arg(s: Stretch, c: Cursor)
    requires
        s.fits(),
        c.at <= s.here.len(),
    ensures
        s.same(constructor_arg(s.here, c), constructor_arg(s.there, s.across(c))),
    decreases ahead(s.here, c), 3nat,
{
    let t = s.here;
    match (peek(t, c), peek_second(t, c)) {
        (Some((_, Tok::Name { .. }, _)), Some((_, Tok::Colon, _))) => {
            let behind = next(t, next(t, c));
            pattern_is_found(t, behind);
            patterns_are_the_same_elsewhere(s, behind);
            lemma_labelled_arg(s, c);
        },
        _ => {
            pattern_is_found(t, c);
            patterns_are_the_same_elsewhere(s, c);
            lemma_positional_arg(s, c);
        },
    }
}

proof fn lemma_labelled_arg(s: Stretch, c: Cursor)
    requires
        s.fits(),
        peek(s.here, c) matches Some((_, Tok::Name { .. }, _)),
        peek_second(s.here, c) matches Some((_, Tok::Colon, _)),
        ({
            let behind = next(s.here, next(s.here, c));
            &&& finds(s.here, behind, pattern(s.here, behind))
            &&& s.same(pattern(s.here, behind), pattern(s.there, s.across(behind)))
        }),
    ensures
        s.same(constructor_arg(s.here, c), constructor_arg(s.there, s.across(c))),
{
}

proof fn lemma_positional_arg(s: Stretch, c: Cursor)
    requires
        s.fits(),
        maybe_name(s.here, c) is Some ==> !(peek_second(s.here, c) matches Some(
            (_, Tok::Colon, _),
        )),
        finds(s.here, c, pattern(s.here, c)),
        s.same(pattern(s.here, c), pattern(s.there, s.across(c))),
    ensures
        s.same(constructor_arg(s.here, c), constructor_arg(s.there, s.across(c))),
{
    if maybe_name(s.here, c) is Some {
        lemma_a_name_is_a_pattern(s.here, c);
    }
}

proof fn lemma_a_name_is_a_pattern(t: Toks, c: Cursor)
    requires
        maybe_name(t, c) is Some,
    ensures
        !nothing(pattern(t, c)),
{
    assert(!nothing(bare_pattern(t, c)));
}

/// Where the same tokens stand elsewhere, the same patterns with commas between them are found.
pub proof fn lists_of_patterns_are_the_same_elsewhere(s: Stretch, c: Cursor)
    requires
        s.fits(),
        c.at <= s.here.len(),
    ensures
        s.same(patterns(s.here, c), patterns(s.there, s.across(c))),
    decreases ahead(s.here, c), 4nat,
{
    let t = s.here;
    let p = pattern_from(t, c);
    let q = pattern_from(s.there, s.across(c));
    assert forall|d: Cursor| c.at <= d.at <= t.len() implies advances(t, d, #[trigger] p(d))
        && s.same(p(d), q(s.across(d))) by {
        pattern_is_found(t, d);
        patterns_are_the_same_elsewhere(s, d);
    }
    series_elsewhere(s, p, q, Some(Tok::Comma), Seq::empty(), c);
}

proof fn lemma_pattern_segment(s: Stretch, c: Cursor)
    requires
        s.fits(),
        c.at <= s.here.len(),
    ensures
        s.same(pattern_segment(s.here, c), pattern_segment(s.there, s.across(c))),
    decreases ahead(s.here, c), 3nat,
{
    let (t, u) = (s.here, s.there);
    pattern_is_found(t, c);
    patterns_are_the_same_elsewhere(s, c);
    segments_are_the_same_elsewhere(
        s,
        (pattern(t, c), pattern(u, s.across(c))),
        (pattern_segment_arg_in(t), pattern_segment_arg_in(u)),
        pattern_number(),
        location_in::<Pattern>(),
        c,
    );
}

} // verus!
