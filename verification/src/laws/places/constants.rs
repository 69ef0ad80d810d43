//! How far looking for constants gets.

use crate::ast::Constant;
use crate::grammar::basics::{expect_one, expect_upname, nothing, one};
use crate::grammar::constants::{
    const_bit_string, const_int_in, const_list, const_number, const_record_arg,
    const_record_arg_from, const_record_finish, const_segment, const_segment_from, const_tuple,
    const_value, const_value_from, const_values,
};
use crate::laws::places::{advances, finds, moves, series_moves};
use crate::laws::places::segments::segment_is_found;
use crate::location::location_in;
use crate::model::Text;
use crate::stream::{ahead, next, peek, peek_second, Cursor, Toks};
use crate::token::Tok;
use vstd::prelude::*;

verus! {

/// Looking for a constant gets ahead if it finds one, stays where it is if not, and never goes back
/// nor beyond the last token.
pub proof fn const_value_is_found(t: Toks, c: Cursor)
    requires
        c.at <= t.len(),
    ensures
        finds(t, c, const_value(t, c)),
    decreases ahead(t, c), 0nat,
{
    let to = next(t, c);
    match peek(t, c) {
        Some((start, Tok::Tuple, _)) => {
            const_tuple_moves(t, to, start);
        },
        Some((start, Tok::Lsqb, _)) => {
            const_list_moves(t, to, start);
        },
        Some((start, Tok::LtLt, _)) => {
            const_bit_string_moves(t, to, start);
        },
        Some((start, Tok::UpName { name }, end)) => {
            const_record_finish_moves(t, to, start, None, name@, end);
        },
        Some((start, Tok::Name { name }, _)) => {
            let dot = expect_one(t, to, Tok::Dot);
            let upname = expect_upname(t, dot.to);
            if let Ok((_, upname_text, end)) = upname.res {
                const_record_finish_moves(t, upname.to, start, Some(name@), upname_text, end);
            }
        },
        _ => {},
    }
}

pub(crate) proof fn const_tuple_moves(t: Toks, c: Cursor, start: usize)
    requires
        c.at <= t.len(),
    ensures
        moves(t, c, const_tuple(t, c, start)),
    decreases ahead(t, c), 3nat,
{
    const_values_move(t, expect_one(t, c, Tok::Lpar).to);
}

pub(crate) proof fn const_list_moves(t: Toks, c: Cursor, start: usize)
    requires
        c.at <= t.len(),
    ensures
        moves(t, c, const_list(t, c, start)),
    decreases ahead(t, c), 3nat,
{
    const_values_move(t, c);
}

pub(crate) proof fn const_bit_string_moves(t: Toks, c: Cursor, start: usize)
    requires
        c.at <= t.len(),
    ensures
        moves(t, c, const_bit_string(t, c, start)),
    decreases ahead(t, c), 3nat,
{
    let p = const_segment_from(t, c);
    assert forall|d: Cursor| c.at <= d.at <= t.len() implies advances(t, d, #[trigger] p(d)) by {
        const_segment_is_found(t, d);
    }
    series_moves(p, t, Some(Tok::Comma), Seq::empty(), c);
}

pub(crate) proof fn const_record_finish_moves(
    t: Toks,
    c: Cursor,
    start: usize,
    module: Option<Text>,
    name: Text,
    end: usize,
)
    requires
        c.at <= t.len(),
    ensures
        moves(t, c, const_record_finish(t, c, start, module, name, end)),
        !nothing(const_record_finish(t, c, start, module, name, end)),
    decreases ahead(t, c), 3nat,
{
    if one(t, c, Tok::Lpar) is Some {
        let inner = next(t, c);
        let p = const_record_arg_from(t, inner);
        assert forall|d: Cursor| inner.at <= d.at <= t.len() implies advances(
            t,
            d,
            #[trigger] p(d),
        ) by {
            const_record_arg_is_found(t, d);
        }
        series_moves(p, t, Some(Tok::Comma), Seq::empty(), inner);
    }
}

/// Looking for an argument of a constant record gets ahead if it finds one, stays where it is if
/// not, and never goes back nor beyond the last token.
pub proof fn const_record_arg_is_found(t: Toks, c: Cursor)
    requires
        c.at <= t.len(),
    ensures
        finds(t, c, const_record_arg(t, c)),
    decreases ahead(t, c), 1nat,
{
    match (peek(t, c), peek_second(t, c)) {
        (Some((_, Tok::Name { .. }, _)), Some((_, Tok::Colon, _))) => {
            const_value_is_found(t, next(t, next(t, c)));
        },
        _ => {
            const_value_is_found(t, c);
        },
    }
}

pub(crate) proof fn const_values_move(t: Toks, c: Cursor)
    requires
        c.at <= t.len(),
    ensures
        moves(t, c, const_values(t, c)),
    decreases ahead(t, c), 2nat,
{
    let p = const_value_from(t, c);
    assert forall|d: Cursor| c.at <= d.at <= t.len() implies advances(t, d, #[trigger] p(d)) by {
        const_value_is_found(t, d);
    }
    series_moves(p, t, Some(Tok::Comma), Seq::empty(), c);
}

/// Looking for a segment of a constant bit string gets ahead if it finds one, stays where it is if
/// not, and never goes back nor beyond the last token.
pub proof fn const_segment_is_found(t: Toks, c: Cursor)
    requires
        c.at <= t.len(),
    ensures
        finds(t, c, const_segment(t, c)),
    decreases ahead(t, c), 1nat,
{
    const_value_is_found(t, c);
    segment_is_found(
        const_value(t, c),
        const_int_in(t),
        const_number(),
        location_in::<Constant>(),
        t,
        c,
    );
}

} // verus!
