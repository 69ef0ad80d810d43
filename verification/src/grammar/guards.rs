//! Guards of case clauses.

use crate::ast::SrcSpan;
use crate::error::ParseErrorType;
use crate::grammar::basics::{
    error_at, expect_one, failed, found, one, skip_one, span, unexpected, Step,
};
use crate::grammar::constants::const_value;
use crate::model::GuardView;
use crate::number::decimal;
use crate::operator::{guard_joiner, guard_precedence};
use crate::precedence::{op_tree, Op};
use crate::stream::{ahead, from, next, peek, Cursor, Toks};
use crate::token::Tok;
use vstd::prelude::*;

verus! {

/// A guard behind `if`. One inside braces needs no `if`.
pub open spec fn guard(t: Toks, c: Cursor, nested: bool) -> Step<Option<GuardView>>
    decreases ahead(t, c), 2nat,
{
    if one(t, c, Tok::If) is Some || nested {
        guard_chain(t, skip_one(t, c, Tok::If), Seq::empty(), Seq::empty())
    } else {
        found(None, c)
    }
}

/// Units with operators between them, behind those units and operators that have been read. The
/// guard ends at a token that is no operator.
pub open spec fn guard_chain(t: Toks, c: Cursor, units: Seq<GuardView>, ops: Seq<Op>) -> Step<
    Option<GuardView>,
>
    decreases ahead(t, c), 1nat,
{
    let unit = guard_unit(t, c);
    let to = from(t, c, unit.to);
    match unit.res {
        Err(error) => failed(error, to),
        Ok(None) => if units.len() == 0 {
            found(None, to)
        } else {
            error_at(ParseErrorType::OpNakedRight, last_op_span(ops), to)
        },
        Ok(Some(value)) => match peek(t, to) {
            None => error_at(ParseErrorType::OpNakedRight, last_op_span(ops), to),
            Some((start, tok, end)) => match guard_precedence(tok) {
                Some(precedence) => guard_chain(
                    t,
                    next(t, to),
                    units.push(value),
                    ops.push(((start, tok, end), precedence)),
                ),
                None => found(Some(op_tree(guard_joiner(), units.push(value), ops)), to),
            },
        },
    }
}

/// Where the last operator stands that has been read.
pub open spec fn last_op_span(ops: Seq<Op>) -> SrcSpan {
    if ops.len() > 0 {
        span(ops.last().0.0, ops.last().0.2)
    } else {
        span(0, 0)
    }
}

/// What stands between operators: a variable, an element of a tuple, a constant, or a guard in
/// braces.
pub open spec fn guard_unit(t: Toks, c: Cursor) -> Step<Option<GuardView>>
    decreases ahead(t, c), 0nat,
{
    let to = next(t, c);
    match peek(t, c) {
        Some((start, Tok::Name { name }, end)) => {
            let var = GuardView::Var { location: span(start, end), name: name@ };
            match one(t, to, Tok::Dot) {
                None => found(Some(var), to),
                Some((dot_start, _)) => {
                    let at_index = next(t, to);
                    let behind = next(t, at_index);
                    match peek(t, at_index) {
                        Some((_, Tok::Int { value }, int_end)) => match decimal(value@) {
                            Some(index) => found(
                                Some(
                                    GuardView::TupleIndex {
                                        location: span(dot_start, int_end),
                                        index,
                                        tuple: Box::new(var),
                                    },
                                ),
                                behind,
                            ),
                            None => error_at(
                                ParseErrorType::InvalidTupleAccess,
                                span(start, end),
                                behind,
                            ),
                        },
                        Some((other_start, _, other_end)) => error_at(
                            ParseErrorType::InvalidTupleAccess,
                            span(other_start, other_end),
                            behind,
                        ),
                        None => unexpected(t, behind, seq!["A positive integer"@]),
                    }
                },
            }
        },
        // The closing brace is looked for even if the guard inside is wrong
        Some((_, Tok::Lbrace, _)) => {
            let inner = guard(t, to, true);
            let rbrace = expect_one(t, inner.to, Tok::Rbrace);
            match rbrace.res {
                Err(error) => failed(error, rbrace.to),
                Ok(_) => Step { res: inner.res, to: rbrace.to },
            }
        },
        _ => {
            let constant = const_value(t, c);
            match constant.res {
                Err(error) => failed(error, constant.to),
                Ok(None) => found(None, constant.to),
                Ok(Some(value)) => found(Some(GuardView::Constant(value)), constant.to),
            }
        },
    }
}

} // verus!
