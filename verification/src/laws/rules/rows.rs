//! The rules of what stands in a row: which things are looked for one after another.

use crate::ast::SrcSpan;
use crate::error::{ErrorView, Fault, ParseErrorType};
use crate::grammar::basics::{error_at, failed, found, nothing, some_of, something, span, Step};
use crate::grammar::constants::{
    const_int, const_int_in, const_record_arg, const_record_arg_from, const_segment,
    const_segment_from, const_value, const_value_from,
};
use crate::grammar::exprs::{
    case_clause, case_clause_from, expect_expression, expect_expression_from, expr_segment,
    expr_segment_from, expression, expression_from, fn_arg, fn_arg_from, fn_param, fn_param_in,
    update_arg, update_arg_from,
};
use crate::grammar::patterns::{
    constructor_arg, constructor_arg_from, pattern, pattern_from, pattern_segment,
    pattern_segment_arg, pattern_segment_arg_in, pattern_segment_from,
};
use crate::grammar::segments::{segment_option, segment_option_in};
use crate::grammar::statements::{
    constructor, constructor_in, external_fn_param, external_fn_param_in, statement, statement_in,
    type_constructor_arg, type_constructor_arg_in, type_param_in,
};
use crate::grammar::types::{ty, ty_from};
use crate::laws::rules::{at, begin, end, is_any_name, is_name};
use crate::model::Text;
use crate::stream::{Cursor, Toks};
use vstd::prelude::*;

verus! {

/// Definitions stand in a module one after another, constructors in a custom type, and so on.
pub proof fn what_definitions_are_made_of(t: Toks, c: Cursor)
    ensures
        statement_in(t)(c) == statement(t, c),
        constructor_in(t)(c) == constructor(t, c),
        type_constructor_arg_in(t)(c) == type_constructor_arg(t, c),
        external_fn_param_in(t)(c) == external_fn_param(t, c),
        fn_param_in(t)(c) == fn_param(t, c),
{
}

/// The parameters of a type are names.
pub proof fn what_the_parameters_of_a_type_are(t: Toks, i: nat, name: Text)
    ensures
        is_name(t, i, name) ==> type_param_in(t)(at(i)) == found(
            Some((begin(t, i), name, end(t, i))),
            at(i + 1),
        ),
        !is_any_name(t, i) ==> type_param_in(t)(at(i)) == found(
            None::<(usize, Text, usize)>,
            at(i),
        ),
{
}

/// Behind a place, that which is looked for in a row is looked for at each place in turn.
pub proof fn what_trees_are_made_of(t: Toks, c: Cursor, d: Cursor, for_const: bool)
    requires
        c.at <= d.at <= t.len(),
    ensures
        ty_from(t, c, for_const)(d) == ty(t, d, for_const),
        const_value_from(t, c)(d) == const_value(t, d),
        const_record_arg_from(t, c)(d) == const_record_arg(t, d),
        const_segment_from(t, c)(d) == const_segment(t, d),
        pattern_from(t, c)(d) == pattern(t, d),
        constructor_arg_from(t, c)(d) == constructor_arg(t, d),
        pattern_segment_from(t, c)(d) == pattern_segment(t, d),
        expression_from(t, c)(d) == expression(t, d),
        expect_expression_from(t, c)(d) == expect_expression(t, d),
        expr_segment_from(t, c)(d) == expr_segment(t, d),
        fn_arg_from(t, c)(d) == fn_arg(t, d),
        update_arg_from(t, c)(d) == update_arg(t, d),
        case_clause_from(t, c)(d) == case_clause(t, d),
{
}

/// Options stand in a segment one after another, and an option has one argument.
pub proof fn what_segments_are_made_of<V>(
    arg: spec_fn(Cursor) -> Step<V>,
    number: spec_fn(Text, usize, usize) -> V,
    t: Toks,
    c: Cursor,
)
    ensures
        segment_option_in(arg, number, t)(c) == segment_option(arg, number, t, c),
        const_int_in(t)(c) == const_int(t, c),
        pattern_segment_arg_in(t)(c) == pattern_segment_arg(t, c),
{
}

/// What has been found or has failed holds all that it is made of.
pub proof fn what_steps_are_made_of<A>(
    value: A,
    error: ParseErrorType,
    other: ErrorView,
    start: usize,
    stop: usize,
    to: Cursor,
)
    ensures
        span(start, stop) == (SrcSpan { start, end: stop }),
        found(value, to) == (Step { res: Ok(value), to }),
        failed::<A>(other, to) == (Step::<A> { res: Err(other), to }),
        error_at::<A>(error, span(start, stop), to).to == to,
        error_at::<A>(error, span(start, stop), to).res == Err::<A, _>(
            ErrorView { fault: Fault::Plain(error), location: SrcSpan { start, end: stop } },
        ),
        some_of(found(value, to)) == found(Some(value), to),
        some_of(failed::<A>(other, to)) == failed::<Option<A>>(other, to),
        nothing(found(None::<A>, to)),
        !nothing(found(Some(value), to)),
        !nothing(failed::<Option<A>>(other, to)),
        something(found(Some(value), to)),
        !something(found(None::<A>, to)),
        !something(failed::<Option<A>>(other, to)),
{
}

} // verus!
