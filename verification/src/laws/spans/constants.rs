//! Where the errors in constants are located.

use crate::ast::Constant;
use crate::grammar::basics::{expect_one, expect_upname, one};
use crate::grammar::constants::{
    const_bit_string, const_int_in, const_list, const_number, const_record_arg,
    const_record_arg_from, const_record_finish, const_segment, const_segment_from, const_tuple,
    const_value, const_value_from, const_values,
};
use crate::laws::spans::{all_fit, error_fits, errors_of_a_series};
use crate::laws::spans::segments::errors_in_segments_are_located;
use crate::location::location_in;
use crate::model::Text;
use crate::stream::{ahead, from, next, peek, peek_second, Cursor, Toks};
use crate::token::Tok;
use vstd::prelude::*;

verus! {

/// The errors in a constant are located within the bound of the tokens.
pub proof fn errors_in_constants_are_located(bound: nat, t: Toks, c: Cursor)
    requires
        all_fit(bound, t),
    ensures
        error_fits(bound, const_value(t, c)),
    decreases ahead(t, c), 0nat,
{
    let to = next(t, c);
    match peek(t, c) {
        Some((start, Tok::Tuple, _)) => {
            lemma_tuple(bound, t, to, start);
        },
        Some((start, Tok::Lsqb, _)) => {
            lemma_list(bound, t, to, start);
        },
        Some((start, Tok::LtLt, _)) => {
            lemma_bit_string(bound, t, to, start);
        },
        Some((start, Tok::UpName { name }, end)) => {
            lemma_record(bound, t, to, start, None, name@, end);
        },
        Some((start, Tok::Name { name }, _)) => {
            let upname = expect_upname(t, expect_one(t, to, Tok::Dot).to);
            if let Ok((_, text, end)) = upname.res {
                lemma_record(bound, t, upname.to, start, Some(name@), text, end);
            }
        },
        _ => {},
    }
}

proof fn lemma_tuple(bound: nat, t: Toks, c: Cursor, start: usize)
    requires
        all_fit(bound, t),
    ensures
        error_fits(bound, const_tuple(t, c, start)),
    decreases ahead(t, c), 3nat,
{
    lemma_values(bound, t, expect_one(t, c, Tok::Lpar).to);
}

proof fn lemma_list(bound: nat, t: Toks, c: Cursor, start: usize)
    requires
        all_fit(bound, t),
    ensures
        error_fits(bound, const_list(t, c, start)),
    decreases ahead(t, c), 3nat,
{
    lemma_values(bound, t, c);
}

proof fn lemma_values(bound: nat, t: Toks, c: Cursor)
    requires
        all_fit(bound, t),
    ensures
        error_fits(bound, const_values(t, c)),
    decreases ahead(t, c), 2nat,
{
    let p = const_value_from(t, c);
    assert forall|d: Cursor| error_fits(bound, #[trigger] p(d)) by {
        errors_in_constants_are_located(bound, t, from(t, c, d));
    }
    errors_of_a_series(bound, p, t, Some(Tok::Comma), Seq::empty(), c);
}

proof fn lemma_bit_string(bound: nat, t: Toks, c: Cursor, start: usize)
    requires
        all_fit(bound, t),
    ensures
        error_fits(bound, const_bit_string(t, c, start)),
    decreases ahead(t, c), 3nat,
{
    let p = const_segment_from(t, c);
    assert forall|d: Cursor| error_fits(bound, #[trigger] p(d)) by {
        lemma_segment(bound, t, from(t, c, d));
    }
    errors_of_a_series(bound, p, t, Some(Tok::Comma), Seq::empty(), c);
}

proof fn lemma_segment(bound: nat, t: Toks, c: Cursor)
    requires
        all_fit(bound, t),
    ensures
        error_fits(bound, const_segment(t, c)),
    decreases ahead(t, c), 1nat,
{
    errors_in_constants_are_located(bound, t, c);
    errors_in_segments_are_located(
        bound,
        const_value(t, c),
        const_int_in(t),
        const_number(),
        location_in::<Constant>(),
        t,
    );
}

proof fn lemma_record(
    bound: nat,
    t: Toks,
    c: Cursor,
    start: usize,
    module: Option<Text>,
    name: Text,
    end: usize,
)
    requires
        all_fit(bound, t),
    ensures
        error_fits(bound, const_record_finish(t, c, start, module, name, end)),
    decreases ahead(t, c), 3nat,
{
    if one(t, c, Tok::Lpar) is Some {
        let inner = next(t, c);
        let p = const_record_arg_from(t, inner);
        assert forall|d: Cursor| error_fits(bound, #[trigger] p(d)) by {
            lemma_record_arg(bound, t, from(t, inner, d));
        }
        errors_of_a_series(bound, p, t, Some(Tok::Comma), Seq::empty(), inner);
    }
}

proof fn lemma_record_arg(bound: nat, t: Toks, c: Cursor)
    requires
        all_fit(bound, t),
    ensures
        error_fits(bound, const_record_arg(t, c)),
    decreases ahead(t, c), 1nat,
{
    match (peek(t, c), peek_second(t, c)) {
        (Some((_, Tok::Name { .. }, _)), Some((_, Tok::Colon, _))) => {
            errors_in_constants_are_located(bound, t, next(t, next(t, c)));
        },
        _ => {
            errors_in_constants_are_located(bound, t, c);
        },
    }
}

} // verus!
