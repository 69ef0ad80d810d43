//! How far looking for patterns gets.

use crate::ast::Pattern;
use crate::grammar::basics::{expect_one, expect_upname, one};
use crate::grammar::patterns::{
    bare_pattern, bit_string_pattern, constructor_arg, constructor_arg_from, constructor_args,
    constructor_pattern, list_pattern, pattern, pattern_from, pattern_number, pattern_segment,
    pattern_segment_arg_in, pattern_segment_from, patterns, tuple_pattern,
};
use crate::laws::places::{advances, finds, moves, series_moves};
use crate::laws::places::segments::segment_is_found;
use crate::location::location_in;
use crate::model::Text;
use crate::stream::{ahead, next, peek, peek_second, Cursor, Toks};
use crate::token::Tok;
use vstd::prelude::*;

verus! {

/// Looking for a pattern gets ahead if it finds one, stays where it is if not, and never goes back
/// nor beyond the last token.
pub proof fn pattern_is_found(t: Toks, c: Cursor)
    requires
        c.at <= t.len(),
    ensures
        finds(t, c, pattern(t, c)),
    decreases ahead(t, c), 2nat,
{
    bare_pattern_is_found(t, c);
}

pub(crate) proof fn bare_pattern_is_found(t: Toks, c: Cursor)
    requires
        c.at <= t.len(),
    ensures
        finds(t, c, bare_pattern(t, c)),
    decreases ahead(t, c), 1nat,
{
    let to = next(t, c);
    match peek(t, c) {
        Some((start, Tok::Name { name }, _)) => {
            constructor_pattern_moves(t, next(t, to), Some((start, name@)));
        },
        Some((_, Tok::UpName { .. }, _)) => {
            constructor_pattern_moves(t, c, None);
        },
        Some((start, Tok::Tuple, _)) => {
            tuple_pattern_moves(t, to, start);
        },
        Some((start, Tok::LtLt, _)) => {
            bit_string_pattern_moves(t, to, start);
        },
        Some((start, Tok::Lsqb, _)) => {
            list_pattern_moves(t, to, start);
        },
        _ => {},
    }
}

pub(crate) proof fn tuple_pattern_moves(t: Toks, c: Cursor, start: usize)
    requires
        c.at <= t.len(),
    ensures
        moves(t, c, tuple_pattern(t, c, start)),
    decreases ahead(t, c), 5nat,
{
    patterns_move(t, expect_one(t, c, Tok::Lpar).to);
}

pub(crate) proof fn bit_string_pattern_moves(t: Toks, c: Cursor, start: usize)
    requires
        c.at <= t.len(),
    ensures
        moves(t, c, bit_string_pattern(t, c, start)),
    decreases ahead(t, c), 5nat,
{
    let p = pattern_segment_from(t, c);
    assert forall|d: Cursor| c.at <= d.at <= t.len() implies advances(t, d, #[trigger] p(d)) by {
        pattern_segment_is_found(t, d);
    }
    series_moves(p, t, Some(Tok::Comma), Seq::empty(), c);
}

pub(crate) proof fn list_pattern_moves(t: Toks, c: Cursor, start: usize)
    requires
        c.at <= t.len(),
    ensures
        moves(t, c, list_pattern(t, c, start)),
    decreases ahead(t, c), 5nat,
{
    patterns_move(t, c);
    let elems = patterns(t, c);
    pattern_is_found(t, next(t, elems.to));
}

pub(crate) proof fn constructor_pattern_moves(t: Toks, c: Cursor, module: Option<(usize, Text)>)
    requires
        c.at <= t.len(),
    ensures
        moves(t, c, constructor_pattern(t, c, module)),
        constructor_pattern(t, c, module).res is Ok ==> c.at < constructor_pattern(
            t,
            c,
            module,
        ).to.at,
    decreases ahead(t, c), 0nat,
{
    let upname = expect_upname(t, c);
    if let Ok((_, _, end)) = upname.res {
        constructor_args_move(t, upname.to, end);
    }
}

pub(crate) proof fn constructor_args_move(t: Toks, c: Cursor, upname_end: usize)
    requires
        c.at <= t.len(),
    ensures
        moves(t, c, constructor_args(t, c, upname_end)),
    decreases ahead(t, c), 5nat,
{
    if one(t, c, Tok::Lpar) is Some {
        let inner = next(t, c);
        let p = constructor_arg_from(t, inner);
        assert forall|d: Cursor| inner.at <= d.at <= t.len() implies advances(
            t,
            d,
            #[trigger] p(d),
        ) by {
            constructor_arg_is_found(t, d);
        }
        series_moves(p, t, Some(Tok::Comma), Seq::empty(), inner);
    }
}

/// Looking for an argument of a constructor gets ahead if it finds one, stays where it is if not,
/// and never goes back nor beyond the last token.
pub proof fn constructor_arg_is_found(t: Toks, c: Cursor)
    requires
        c.at <= t.len(),
    ensures
        finds(t, c, constructor_arg(t, c)),
    decreases ahead(t, c), 3nat,
{
    match (peek(t, c), peek_second(t, c)) {
        (Some((_, Tok::Name { .. }, _)), Some((_, Tok::Colon, _))) => {
            pattern_is_found(t, next(t, next(t, c)));
        },
        _ => {
            pattern_is_found(t, c);
        },
    }
}

/// Looking for patterns with commas between them gets ahead if it finds one, stays where it is if
/// not, and never goes back nor beyond the last token.
pub proof fn patterns_move(t: Toks, c: Cursor)
    requires
        c.at <= t.len(),
    ensures
        moves(t, c, patterns(t, c)),
    decreases ahead(t, c), 4nat,
{
    let p = pattern_from(t, c);
    assert forall|d: Cursor| c.at <= d.at <= t.len() implies advances(t, d, #[trigger] p(d)) by {
        pattern_is_found(t, d);
    }
    series_moves(p, t, Some(Tok::Comma), Seq::empty(), c);
}

/// Looking for a segment of a bit string pattern gets ahead if it finds one, stays where it is if
/// not, and never goes back nor beyond the last token.
pub proof fn pattern_segment_is_found(t: Toks, c: Cursor)
    requires
        c.at <= t.len(),
    ensures
        finds(t, c, pattern_segment(t, c)),
    decreases ahead(t, c), 3nat,
{
    pattern_is_found(t, c);
    segment_is_found(
        pattern(t, c),
        pattern_segment_arg_in(t),
        pattern_number(),
        location_in::<Pattern>(),
        t,
        c,
    );
}

} // verus!
