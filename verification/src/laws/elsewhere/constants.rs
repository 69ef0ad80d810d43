//! Constants elsewhere.

use crate::ast::Constant;
use crate::grammar::basics::{expect_one, expect_upname, maybe_name, one, series};
use crate::grammar::constants::{
    const_bit_string, const_int_in, const_list, const_number, const_record_arg,
    const_record_arg_from, const_record_finish, const_segment, const_segment_from, const_tuple,
    const_value, const_value_from, const_values,
};
use crate::laws::elsewhere::{series_elsewhere, Stretch};
use crate::laws::elsewhere::segments::segments_are_the_same_elsewhere;
use crate::laws::places::{advances, finds, moves, series_moves};
use crate::laws::places::constants::{
    const_bit_string_moves, const_list_moves, const_record_arg_is_found, const_record_finish_moves,
    const_segment_is_found, const_tuple_moves, const_value_is_found, const_values_move,
};
use crate::location::location_in;
use crate::model::Text;
use crate::stream::{ahead, next, peek, peek_second, Cursor};
use crate::token::Tok;
use vstd::prelude::*;

verus! {

/// Where the same tokens stand elsewhere, the same constant is found.
pub proof fn constants_are_the_same_elsewhere(s: Stretch, c: Cursor)
    requires
        s.fits(),
        c.at <= s.here.len(),
    ensures
        s.same(const_value(s.here, c), const_value(s.there, s.across(c))),
    decreases ahead(s.here, c), 0nat,
{
    let t = s.here;
    let to = next(t, c);
    const_value_is_found(t, c);
    match peek(t, c) {
        Some((start, Tok::Tuple, _)) => {
            lemma_const_tuple(s, to, start);
        },
        Some((start, Tok::Lsqb, _)) => {
            lemma_const_list(s, to, start);
        },
        Some((start, Tok::LtLt, _)) => {
            lemma_const_bit_string(s, to, start);
        },
        Some((start, Tok::UpName { name }, end)) => {
            lemma_const_record_finish(s, to, start, None, name@, end);
        },
        Some((start, Tok::Name { name }, _)) => {
            let dot = expect_one(t, to, Tok::Dot);
            let upname = expect_upname(t, dot.to);
            if let Ok((_, upname_text, end)) = upname.res {
                const_record_finish_moves(t, upname.to, start, Some(name@), upname_text, end);
                lemma_const_record_finish(s, upname.to, start, Some(name@), upname_text, end);
            }
        },
        _ => {},
    }
}

proof fn lemma_const_tuple(s: Stretch, c: Cursor, start: usize)
    requires
        s.fits(),
        c.at <= s.here.len(),
    ensures
        s.same(const_tuple(s.here, c, start), const_tuple(s.there, s.across(c), start)),
    decreases ahead(s.here, c), 3nat,
{
    let t = s.here;
    const_tuple_moves(t, c, start);
    let lpar = expect_one(t, c, Tok::Lpar);
    const_values_move(t, lpar.to);
    lemma_const_values(s, lpar.to);
}

proof fn lemma_const_list(s: Stretch, c: Cursor, start: usize)
    requires
        s.fits(),
        c.at <= s.here.len(),
    ensures
        s.same(const_list(s.here, c, start), const_list(s.there, s.across(c), start)),
    decreases ahead(s.here, c), 3nat,
{
    let t = s.here;
    const_list_moves(t, c, start);
    const_values_move(t, c);
    lemma_const_values(s, c);
}

proof fn lemma_const_bit_string(s: Stretch, c: Cursor, start: usize)
    requires
        s.fits(),
        c.at <= s.here.len(),
    ensures
        s.same(const_bit_string(s.here, c, start), const_bit_string(s.there, s.across(c), start)),
    decreases ahead(s.here, c), 3nat,
{
    const_bit_string_moves(s.here, c, start);
    lemma_const_segments(s, c);
}

proof fn lemma_const_segments(s: Stretch, c: Cursor)
    requires
        s.fits(),
        c.at <= s.here.len(),
    ensures
        moves(
            s.here,
            c,
            series(const_segment_from(s.here, c), s.here, Some(Tok::Comma), Seq::empty(), c),
        ),
        s.same(
            series(const_segment_from(s.here, c), s.here, Some(Tok::Comma), Seq::empty(), c),
            series(
                const_segment_from(s.there, s.across(c)),
                s.there,
                Some(Tok::Comma),
                Seq::empty(),
                s.across(c),
            ),
        ),
    decreases ahead(s.here, c), 2nat,
{
    let t = s.here;
    let p = const_segment_from(t, c);
    let q = const_segment_from(s.there, s.across(c));
    assert forall|d: Cursor| c.at <= d.at <= t.len() implies advances(t, d, #[trigger] p(d))
        && s.same(p(d), q(s.across(d))) by {
        const_segment_is_found(t, d);
        lemma_const_segment(s, d);
    }
    series_moves(p, t, Some(Tok::Comma), Seq::empty(), c);
    series_elsewhere(s, p, q, Some(Tok::Comma), Seq::empty(), c);
}

proof fn lemma_const_record_finish(
    s: Stretch,
    c: Cursor,
    start: usize,
    module: Option<Text>,
    name: Text,
    end: usize,
)
    requires
        s.fits(),
        c.at <= s.here.len(),
    ensures
        s.same(
            const_record_finish(s.here, c, start, module, name, end),
            const_record_finish(s.there, s.across(c), start, module, name, end),
        ),
    decreases ahead(s.here, c), 3nat,
{
    let t = s.here;
    const_record_finish_moves(t, c, start, module, name, end);
    if one(t, c, Tok::Lpar) is Some {
        lemma_const_record_args(s, next(t, c));
    }
}

proof fn lemma_const_record_args(s: Stretch, c: Cursor)
    requires
        s.fits(),
        c.at <= s.here.len(),
    ensures
        moves(
            s.here,
            c,
            series(const_record_arg_from(s.here, c), s.here, Some(Tok::Comma), Seq::empty(), c),
        ),
        s.same(
            series(const_record_arg_from(s.here, c), s.here, Some(Tok::Comma), Seq::empty(), c),
            series(
                const_record_arg_from(s.there, s.across(c)),
                s.there,
                Some(Tok::Comma),
                Seq::empty(),
                s.across(c),
            ),
        ),
    decreases ahead(s.here, c), 2nat,
{
    let t = s.here;
    let p = const_record_arg_from(t, c);
    let q = const_record_arg_from(s.there, s.across(c));
    assert forall|d: Cursor| c.at <= d.at <= t.len() implies advances(t, d, #[trigger] p(d))
        && s.same(p(d), q(s.across(d))) by {
        const_record_arg_is_found(t, d);
        lemma_const_record_arg(s, d);
    }
    series_moves(p, t, Some(Tok::Comma), Seq::empty(), c);
    series_elsewhere(s, p, q, Some(Tok::Comma), Seq::empty(), c);
}

proof fn lemma_const_record_arg(s: Stretch, c: Cursor)
    requires
        s.fits(),
        c.at <= s.here.len(),
    ensures
        s.same(const_record_arg(s.here, c), const_record_arg(s.there, s.across(c))),
    decreases ahead(s.here, c), 1nat,
{
    let t = s.here;
    match (peek(t, c), peek_second(t, c)) {
        (Some((_, Tok::Name { .. }, _)), Some((_, Tok::Colon, _))) => {
            let behind = next(t, next(t, c));
            const_value_is_found(t, behind);
            constants_are_the_same_elsewhere(s, behind);
            lemma_labelled_arg(s, c);
        },
        _ => {
            const_value_is_found(t, c);
            constants_are_the_same_elsewhere(s, c);
            lemma_positional_arg(s, c);
        },
    }
}

proof fn lemma_labelled_arg(s: Stretch, c: Cursor)
    requires
        s.fits(),
        peek(s.here, c) matches Some((_, Tok::Name { .. }, _)),
        peek_second(s.here, c) matches Some((_, Tok::Colon, _)),
        ({
            let behind = next(s.here, next(s.here, c));
            &&& finds(s.here, behind, const_value(s.here, behind))
            &&& s.same(const_value(s.here, behind), const_value(s.there, s.across(behind)))
        }),
    ensures
        s.same(const_record_arg(s.here, c), const_record_arg(s.there, s.across(c))),
{
}

proof fn lemma_positional_arg(s: Stretch, c: Cursor)
    requires
        s.fits(),
        maybe_name(s.here, c) is Some ==> !(peek_second(s.here, c) matches Some(
            (_, Tok::Colon, _),
        )),
        finds(s.here, c, const_value(s.here, c)),
        s.same(const_value(s.here, c), const_value(s.there, s.across(c))),
    ensures
        s.same(const_record_arg(s.here, c), const_record_arg(s.there, s.across(c))),
{
}

proof fn lemma_const_values(s: Stretch, c: Cursor)
    requires
        s.fits(),
        c.at <= s.here.len(),
    ensures
        s.same(const_values(s.here, c), const_values(s.there, s.across(c))),
    decreases ahead(s.here, c), 2nat,
{
    let t = s.here;
    let p = const_value_from(t, c);
    let q = const_value_from(s.there, s.across(c));
    assert forall|d: Cursor| c.at <= d.at <= t.len() implies advances(t, d, #[trigger] p(d))
        && s.same(p(d), q(s.across(d))) by {
        const_value_is_found(t, d);
        constants_are_the_same_elsewhere(s, d);
    }
    series_elsewhere(s, p, q, Some(Tok::Comma), Seq::empty(), c);
}

proof fn lemma_const_segment(s: Stretch, c: Cursor)
    requires
        s.fits(),
        c.at <= s.here.len(),
    ensures
        s.same(const_segment(s.here, c), const_segment(s.there, s.across(c))),
    decreases ahead(s.here, c), 1nat,
{
    let (t, u) = (s.here, s.there);
    const_value_is_found(t, c);
    constants_are_the_same_elsewhere(s, c);
    segments_are_the_same_elsewhere(
        s,
        (const_value(t, c), const_value(u, s.across(c))),
        (const_int_in(t), const_int_in(u)),
        const_number(),
        location_in::<Constant>(),
        c,
    );
}

} // verus!
