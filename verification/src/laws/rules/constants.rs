//! The rules of constants.

use crate::ast::Constant;
use crate::error::ParseErrorType;
use crate::grammar::basics::{error_at, found, nothing, series, span, Step};
use crate::grammar::constants::{
    const_int, const_int_in, const_number, const_record_arg, const_record_arg_from, const_segment,
    const_segment_from, const_value, const_value_from, const_values,
};
use crate::grammar::segments::segment_option_in;
use crate::laws::places::advances;
use crate::laws::places::constants::{
    const_record_arg_is_found, const_segment_is_found, const_value_is_found,
};
use crate::laws::rules::{
    at, begin, behind_label, end, is_float, is_int, is_name, is_string, is_tok, labelled,
    lemma_listed, listed, Row,
};
use crate::laws::rules::segments::{a_segment_with_options, a_segment_without_options};
use crate::laws::rules::types::type_named;
use crate::location::location_in;
use crate::model::{CallArgView, ConstantView, SegmentOptionView, SegmentView, Text};
use crate::stream::{Cursor, Toks};
use crate::token::Tok;
use vstd::prelude::*;

verus! {

/// A constant at a place of a stream.
pub open spec fn constant_in(t: Toks) -> spec_fn(Cursor) -> Step<Option<ConstantView>> {
    |c: Cursor| const_value(t, c)
}

/// An argument of a constant record at a place of a stream.
pub open spec fn record_arg_in(t: Toks) -> spec_fn(Cursor) -> Step<
    Option<CallArgView<ConstantView>>,
> {
    |c: Cursor| const_record_arg(t, c)
}

/// A segment of a constant bit string at a place of a stream.
pub open spec fn const_segment_in(t: Toks) -> spec_fn(Cursor) -> Step<
    Option<SegmentView<ConstantView>>,
> {
    |c: Cursor| const_segment(t, c)
}

/// A literal is the constant that it stands for.
pub proof fn a_literal_is_a_constant(t: Toks, i: nat, value: Text)
    ensures
        ({
            let location = span(begin(t, i), end(t, i));
            &&& is_int(t, i, value) ==> const_value(t, at(i)) == found(
                Some(ConstantView::Int { location, value }),
                at(i + 1),
            )
            &&& is_float(t, i, value) ==> const_value(t, at(i)) == found(
                Some(ConstantView::Float { location, value }),
                at(i + 1),
            )
            &&& is_string(t, i, value) ==> const_value(t, at(i)) == found(
                Some(ConstantView::String { location, value }),
                at(i + 1),
            )
        }),
{
}

/// `tuple` with constants in parentheses behind it is a tuple of these constants.
pub proof fn a_constant_tuple(t: Toks, i: nat, row: Row<ConstantView>, k: nat)
    requires
        is_tok(t, i, Tok::Tuple),
        is_tok(t, i + 1, Tok::Lpar),
        listed(t, constant_in(t), Tok::Comma, i + 2, k, row),
        is_tok(t, k, Tok::Rpar),
    ensures
        const_value(t, at(i)) == found(
            Some(
                ConstantView::Tuple {
                    location: span(begin(t, i), end(t, k)),
                    elements: row.things,
                },
            ),
            at(k + 1),
        ),
{
    lemma_constants(t, i + 2, k, row);
}

/// Constants in brackets are a list of them.
pub proof fn a_constant_list(t: Toks, i: nat, row: Row<ConstantView>, k: nat)
    requires
        is_tok(t, i, Tok::Lsqb),
        listed(t, constant_in(t), Tok::Comma, i + 1, k, row),
        is_tok(t, k, Tok::Rsqb),
    ensures
        const_value(t, at(i)) == found(
            Some(
                ConstantView::List { location: span(begin(t, i), end(t, k)), elements: row.things },
            ),
            at(k + 1),
        ),
{
    lemma_constants(t, i + 1, k, row);
}

proof fn lemma_constants(t: Toks, i: nat, k: nat, row: Row<ConstantView>)
    requires
        i <= t.len(),
        listed(t, constant_in(t), Tok::Comma, i, k, row),
        is_tok(t, k, Tok::Rpar) || is_tok(t, k, Tok::Rsqb),
    ensures
        const_values(t, at(i)) == found(row.things, at(k)),
        i <= k,
{
    let p = const_value_from(t, at(i));
    let q = constant_in(t);
    assert forall|d: Cursor| i <= d.at <= t.len() implies #[trigger] p(d) == q(d) && advances(
        t,
        d,
        p(d),
    ) by {
        const_value_is_found(t, d);
    }
    lemma_listed(t, q, p, Tok::Comma, i, k, row);
}

/// Segments between `<<` and `>>` are a bit string of them.
pub proof fn a_constant_bit_string(
    t: Toks,
    i: nat,
    row: Row<SegmentView<ConstantView>>,
    k: nat,
)
    requires
        is_tok(t, i, Tok::LtLt),
        listed(t, const_segment_in(t), Tok::Comma, i + 1, k, row),
        is_tok(t, k, Tok::GtGt),
    ensures
        const_value(t, at(i)) == found(
            Some(
                ConstantView::BitString {
                    location: span(begin(t, i), end(t, k)),
                    segments: row.things,
                },
            ),
            at(k + 1),
        ),
{
    lemma_segments(t, i + 1, k, row);
}

proof fn lemma_segments(t: Toks, i: nat, k: nat, row: Row<SegmentView<ConstantView>>)
    requires
        i <= t.len(),
        listed(t, const_segment_in(t), Tok::Comma, i, k, row),
        is_tok(t, k, Tok::GtGt),
    ensures
        series(const_segment_from(t, at(i)), t, Some(Tok::Comma), Seq::empty(), at(i)) == found(
            row.things,
            at(k),
        ),
        i <= k,
{
    let p = const_segment_from(t, at(i));
    let q = const_segment_in(t);
    assert forall|d: Cursor| i <= d.at <= t.len() implies #[trigger] p(d) == q(d) && advances(
        t,
        d,
        p(d),
    ) by {
        const_segment_is_found(t, d);
    }
    assert(q(at(k)) == found(None::<SegmentView<ConstantView>>, at(k))) by {
        assert(nothing(const_value(t, at(k))));
    }
    lemma_listed(t, q, p, Tok::Comma, i, k, row);
}

/// A constant is a segment of a constant bit string, with the options behind a colon if there are
/// any.
pub proof fn a_segment_of_a_constant(
    t: Toks,
    i: nat,
    value: ConstantView,
    j: nat,
    row: Row<SegmentOptionView<ConstantView>>,
    k: nat,
)
    requires
        i <= t.len(),
        const_value(t, at(i)) == found(Some(value), at(j)),
        ({
            ||| !is_tok(t, j, Tok::Colon) && row.things.len() == 0 && k == j
            ||| {
                &&& is_tok(t, j, Tok::Colon)
                &&& listed(
                    t,
                    segment_option_in(const_int_in(t), const_number(), t),
                    Tok::Minus,
                    j + 1,
                    k,
                    row,
                )
                &&& row.things.len() > 0
                &&& k == row.stops.last()
                &&& !is_tok(t, k, Tok::Minus)
            }
        }),
    ensures
        const_segment(t, at(i)) == found(
            Some(
                SegmentView {
                    location: span(
                        value.location().start,
                        if row.things.len() > 0 {
                            row.things.last().location().end
                        } else {
                            value.location().end
                        },
                    ),
                    value: Box::new(value),
                    options: row.things,
                },
            ),
            at(k),
        ),
{
    let first = const_value(t, at(i));
    let arg = const_int_in(t);
    let location = location_in::<Constant>();
    if row.things.len() == 0 {
        assert(row.things =~= Seq::empty());
        a_segment_without_options(first, arg, const_number(), location, t, value, j);
    } else {
        a_segment_with_options(first, arg, const_number(), location, t, value, j, row, k);
    }
}

/// The argument of an option of a constant bit string is a number, and so is its size in the short
/// form.
pub proof fn a_number_in_an_option_of_a_constant(t: Toks, i: nat, value: Text)
    ensures
        ({
            let constant = ConstantView::Int { location: span(begin(t, i), end(t, i)), value };
            &&& is_int(t, i, value) ==> const_int(t, at(i)) == found(constant, at(i + 1))
            &&& const_number()(value, begin(t, i), end(t, i)) == constant
        }),
{
}

/// The name of a constructor, without parentheses behind it, is a record without arguments.
pub proof fn a_record_without_arguments(
    t: Toks,
    i: nat,
    module: Option<Text>,
    name: Text,
    j: nat,
)
    requires
        type_named(t, i, module, name, j),
        !is_tok(t, j, Tok::Lpar),
    ensures
        const_value(t, at(i)) == found(
            Some(
                ConstantView::Record {
                    location: span(begin(t, i), end(t, (j - 1) as nat)),
                    module,
                    name,
                    args: Seq::empty(),
                },
            ),
            at(j),
        ),
{
}

/// The name of a constructor with arguments in parentheses behind it is a record with these
/// arguments in their order.
pub proof fn a_record_with_arguments(
    t: Toks,
    i: nat,
    module: Option<Text>,
    name: Text,
    j: nat,
    row: Row<CallArgView<ConstantView>>,
    k: nat,
)
    requires
        type_named(t, i, module, name, j),
        is_tok(t, j, Tok::Lpar),
        listed(t, record_arg_in(t), Tok::Comma, j + 1, k, row),
        is_tok(t, k, Tok::Rpar),
    ensures
        const_value(t, at(i)) == found(
            Some(
                ConstantView::Record {
                    location: span(begin(t, i), end(t, k)),
                    module,
                    name,
                    args: row.things,
                },
            ),
            at(k + 1),
        ),
{
    lemma_record_args(t, j + 1, k, row);
}

proof fn lemma_record_args(t: Toks, i: nat, k: nat, row: Row<CallArgView<ConstantView>>)
    requires
        i <= t.len(),
        listed(t, record_arg_in(t), Tok::Comma, i, k, row),
        is_tok(t, k, Tok::Rpar),
    ensures
        series(const_record_arg_from(t, at(i)), t, Some(Tok::Comma), Seq::empty(), at(i)) == found(
            row.things,
            at(k),
        ),
        i <= k,
{
    let p = const_record_arg_from(t, at(i));
    let q = record_arg_in(t);
    assert forall|d: Cursor| i <= d.at <= t.len() implies #[trigger] p(d) == q(d) && advances(
        t,
        d,
        p(d),
    ) by {
        const_record_arg_is_found(t, d);
    }
    assert(q(at(k)) == found(None::<CallArgView<ConstantView>>, at(k))) by {
        assert(nothing(const_value(t, at(k))));
    }
    lemma_listed(t, q, p, Tok::Comma, i, k, row);
}

/// A constant is an argument of a record, without a label or with the one that stands before it and
/// a colon.
pub proof fn an_argument_of_a_record(
    t: Toks,
    i: nat,
    label: Option<Text>,
    value: ConstantView,
    j: nat,
)
    requires
        labelled(t, i, label),
        const_value(t, at(behind_label(i, label))) == found(Some(value), at(j)),
    ensures
        const_record_arg(t, at(i)) == found(
            Some(
                CallArgView {
                    label,
                    location: if label is Some {
                        span(begin(t, i), value.location().end)
                    } else {
                        value.location()
                    },
                    value,
                },
            ),
            at(j),
        ),
{
}

/// What is no constant: a name without a dot behind it, a function, and `[]`.
pub proof fn what_is_no_constant(t: Toks, i: nat, name: Text)
    ensures
        ({
            let location = span(begin(t, i), end(t, i));
            let res = const_value(t, at(i)).res;
            &&& is_name(t, i, name) && !is_tok(t, i + 1, Tok::Dot) ==> res
                == error_at::<Option<ConstantView>>(
                ParseErrorType::NotConstType,
                location,
                at(i),
            ).res
            &&& is_tok(t, i, Tok::Fn) ==> res == error_at::<Option<ConstantView>>(
                ParseErrorType::NotConstType,
                location,
                at(i),
            ).res
            &&& is_tok(t, i, Tok::ListNil) ==> res == error_at::<Option<ConstantView>>(
                ParseErrorType::ListNilNotAllowed,
                location,
                at(i),
            ).res
        }),
{
}

/// No other token starts a constant.
pub proof fn nothing_else_is_a_constant(t: Toks, c: Cursor)
    requires
        c.at <= t.len(),
    ensures
        nothing(const_value(t, c)) <==> {
            ||| c.lost
            ||| c.at >= t.len()
            ||| !(t[c.at as int] matches Some(
                (
                    _,
                    Tok::String { .. }
                    | Tok::Float { .. }
                    | Tok::Int { .. }
                    | Tok::Tuple
                    | Tok::Lsqb
                    | Tok::LtLt
                    | Tok::UpName { .. }
                    | Tok::Name { .. }
                    | Tok::ListNil
                    | Tok::Fn,
                    _,
                ),
            ))
        },
        nothing(const_value(t, c)) ==> const_value(t, c).to == c,
{
    const_value_is_found(t, c);
}

} // verus!
