//! Expressions, and what is made of them: functions, case clauses and sequences.

use crate::ast::{BindingKind, UntypedExpr};
use crate::call::{call, ParserArgView};
use crate::error::ParseErrorType;
use crate::grammar::basics::{
    error_at, expect_name, expect_one, expect_string, failed, found, maybe_discard_name, maybe_name,
    one, series, skip_one, some_of, span, unexpected, Step,
};
use crate::grammar::guards::{guard, last_op_span};
use crate::grammar::patterns::{pattern, patterns};
use crate::grammar::segments::segment;
use crate::grammar::types::type_annotation;
use crate::location::location_in;
use crate::model::{
    ArgNamesView, ArgView, CallArgView, ClauseView, ExprView, PatternView, RecordUpdateArgView,
    SegmentView, SpreadView, StatementView, Text, TypeView,
};
use crate::number::decimal;
use crate::operator::{expr_joiner, expr_precedence};
use crate::precedence::{op_tree, Op};
use crate::stream::{after, ahead, from, give_up, next, peek, peek_second, Cursor, Toks};
use crate::token::Tok;
use vstd::prelude::*;

verus! {

/// An expression: units with operators between them.
pub open spec fn expression(t: Toks, c: Cursor) -> Step<Option<ExprView>>
    decreases ahead(t, c), 3nat,
{
    expr_chain(t, c, Seq::empty(), Seq::empty())
}

/// Units with operators between them, behind those units and operators that have been read.
pub open spec fn expr_chain(t: Toks, c: Cursor, units: Seq<ExprView>, ops: Seq<Op>) -> Step<
    Option<ExprView>,
>
    decreases ahead(t, c), 2nat,
{
    let unit = expr_unit(t, c);
    let to = from(t, c, unit.to);
    match unit.res {
        Err(error) => failed(error, to),
        Ok(None) => if units.len() == 0 {
            found(None, to)
        } else {
            error_at(ParseErrorType::OpNakedRight, last_op_span(ops), to)
        },
        Ok(Some(value)) => {
            let whole = found(Some(op_tree(expr_joiner(), units.push(value), ops)), to);
            match peek(t, to) {
                None => whole,
                Some((start, tok, end)) => match expr_precedence(tok) {
                    Some(precedence) => expr_chain(
                        t,
                        next(t, to),
                        units.push(value),
                        ops.push(((start, tok, end), precedence)),
                    ),
                    None => whole,
                },
            }
        },
    }
}

/// What stands between operators, with all field accesses and calls behind it.
pub open spec fn expr_unit(t: Toks, c: Cursor) -> Step<Option<ExprView>>
    decreases ahead(t, c), 1nat,
{
    let head = expr_head(t, c);
    match head.res {
        Ok(Some(expr)) => some_of(unit_tail(t, from(t, c, head.to), expr)),
        _ => head,
    }
}

/// What a unit starts with.
pub open spec fn expr_head(t: Toks, c: Cursor) -> Step<Option<ExprView>>
    decreases ahead(t, c), 0nat,
{
    let to = next(t, c);
    match peek(t, c) {
        Some((start, Tok::String { value }, end)) => found(
            Some(ExprView::String { location: span(start, end), value: value@ }),
            to,
        ),
        Some((start, Tok::Int { value }, end)) => found(
            Some(ExprView::Int { location: span(start, end), value: value@ }),
            to,
        ),
        Some((start, Tok::Float { value }, end)) => found(
            Some(ExprView::Float { location: span(start, end), value: value@ }),
            to,
        ),
        Some((start, Tok::ListNil, end)) => found(
            Some(ExprView::ListNil { location: span(start, end) }),
            to,
        ),
        Some((start, Tok::Name { name }, end)) => found(
            Some(ExprView::Var { location: span(start, end), name: name@ }),
            to,
        ),
        Some((start, Tok::UpName { name }, end)) => found(
            Some(ExprView::Var { location: span(start, end), name: name@ }),
            to,
        ),
        Some((start, Tok::Todo, end)) => some_of(todo_expr(t, to, start, end)),
        Some((start, Tok::Tuple, _)) => some_of(tuple_expr(t, to, start)),
        Some((start, Tok::Lsqb, _)) => some_of(list_expr(t, to, start)),
        Some((start, Tok::LtLt, _)) => some_of(bit_string_expr(t, to, start)),
        Some((start, Tok::Fn, _)) => some_of(fn_expr(t, to, start)),
        Some((start, Tok::Lbrace, _)) => some_of(block_expr(t, to, start)),
        Some((start, Tok::Case, case_end)) => some_of(case_expr(t, to, start, case_end)),
        // A parenthesis, which is not taken out of the stream
        Some((start, Tok::Lpar, _)) => error_at(
            ParseErrorType::ExprLparStart,
            span(start, start),
            give_up(c),
        ),
        _ => found(None, c),
    }
}

/// The rest of a `todo`, which may have a label.
pub open spec fn todo_expr(t: Toks, c: Cursor, start: usize, end: usize) -> Step<ExprView> {
    if one(t, c, Tok::Lpar) is Some {
        let text = expect_string(t, next(t, c));
        match text.res {
            Err(error) => failed(error, text.to),
            Ok((_, label, _)) => {
                let rpar = expect_one(t, text.to, Tok::Rpar);
                match rpar.res {
                    Err(error) => failed(error, rpar.to),
                    Ok((_, rpar_end)) => found(
                        ExprView::Todo { location: span(start, rpar_end), label: Some(label) },
                        rpar.to,
                    ),
                }
            },
        }
    } else {
        found(ExprView::Todo { location: span(start, end), label: None }, c)
    }
}

/// The rest of a tuple, behind its `tuple`.
pub open spec fn tuple_expr(t: Toks, c: Cursor, start: usize) -> Step<ExprView>
    decreases ahead(t, c), 8nat,
{
    let lpar = expect_one(t, c, Tok::Lpar);
    match lpar.res {
        Err(error) => failed(error, lpar.to),
        Ok(_) => {
            let elems = expressions(t, lpar.to);
            match elems.res {
                Err(error) => failed(error, elems.to),
                Ok(elements) => {
                    let rpar = expect_one(t, elems.to, Tok::Rpar);
                    match rpar.res {
                        Err(error) => failed(error, rpar.to),
                        Ok((_, end)) => found(
                            ExprView::Tuple { location: span(start, end), elems: elements },
                            rpar.to,
                        ),
                    }
                },
            }
        },
    }
}

/// The rest of a list, behind its `[`.
pub open spec fn list_expr(t: Toks, c: Cursor, start: usize) -> Step<ExprView>
    decreases ahead(t, c), 8nat,
{
    let elems = expressions(t, c);
    match elems.res {
        Err(error) => failed(error, elems.to),
        Ok(elements) => {
            let rest = if one(t, elems.to, Tok::DotDot) is Some {
                let tail = expression(t, from(t, c, next(t, elems.to)));
                match tail.res {
                    Err(error) => failed(error, tail.to),
                    Ok(tail_expr) => found(tail_expr, skip_one(t, tail.to, Tok::Comma)),
                }
            } else {
                found(None, elems.to)
            };
            match rest.res {
                Err(error) => failed(error, rest.to),
                Ok(tail) => {
                    let rsqb = expect_one(t, rest.to, Tok::Rsqb);
                    match rsqb.res {
                        Err(error) => failed(error, rsqb.to),
                        Ok((_, end)) => found(
                            list_of(
                                elements,
                                match tail {
                                    Some(expr) => expr,
                                    None => ExprView::ListNil { location: span(start, end) },
                                },
                            ),
                            rsqb.to,
                        ),
                    }
                },
            }
        },
    }
}

/// The list that starts with some elements and goes on with a tail. All its parts have the
/// location of the tail.
pub open spec fn list_of(elements: Seq<ExprView>, tail: ExprView) -> ExprView
    decreases elements.len(),
{
    if elements.len() == 0 {
        tail
    } else {
        ExprView::ListCons {
            location: tail.location(),
            head: Box::new(elements[0]),
            tail: Box::new(list_of(elements.drop_first(), tail)),
        }
    }
}

/// The rest of a bit string, behind its `<<`.
pub open spec fn bit_string_expr(t: Toks, c: Cursor, start: usize) -> Step<ExprView>
    decreases ahead(t, c), 8nat,
{
    let parts = series(expr_segment_from(t, c), t, Some(Tok::Comma), Seq::empty(), c);
    match parts.res {
        Err(error) => failed(error, parts.to),
        Ok(segments) => {
            let close = expect_one(t, parts.to, Tok::GtGt);
            match close.res {
                Err(error) => failed(error, close.to),
                Ok((_, end)) => found(
                    ExprView::BitString { location: span(start, end), segments },
                    close.to,
                ),
            }
        },
    }
}

/// The rest of an anonymous function, behind its `fn`.
pub open spec fn fn_expr(t: Toks, c: Cursor, start: usize) -> Step<ExprView>
    decreases ahead(t, c), 8nat,
{
    let fun = function(t, c, start, false, true);
    match fun.res {
        Err(error) => failed(error, fun.to),
        Ok(Some(StatementView::Fn { location, args, body, return_annotation, .. })) => found(
            ExprView::Fn {
                location,
                is_capture: false,
                args,
                body: Box::new(body),
                return_annotation,
            },
            fun.to,
        ),
        _ => unexpected(t, fun.to, seq!["An opening parenthesis."@]),
    }
}

/// The rest of a sequence in braces, behind the opening one.
pub open spec fn block_expr(t: Toks, c: Cursor, start: usize) -> Step<ExprView>
    decreases ahead(t, c), 8nat,
{
    let inner = expression_seq(t, c);
    match inner.res {
        Err(error) => failed(error, inner.to),
        Ok(sequence) => {
            let rbrace = expect_one(t, inner.to, Tok::Rbrace);
            match rbrace.res {
                Err(error) => failed(error, rbrace.to),
                Ok((_, end)) => match sequence {
                    Some((expr, _)) => found(expr, rbrace.to),
                    None => error_at(ParseErrorType::NoExpression, span(start, end), rbrace.to),
                },
            }
        },
    }
}

/// The rest of a case expression, behind its `case`.
pub open spec fn case_expr(t: Toks, c: Cursor, start: usize, case_end: usize) -> Step<ExprView>
    decreases ahead(t, c), 8nat,
{
    let values = expressions(t, c);
    match values.res {
        Err(error) => failed(error, values.to),
        Ok(subjects) => {
            let lbrace = expect_one(t, values.to, Tok::Lbrace);
            match lbrace.res {
                Err(error) => failed(error, lbrace.to),
                Ok(_) => {
                    let inner = from(t, c, lbrace.to);
                    let branches = series(
                        case_clause_from(t, inner),
                        t,
                        None,
                        Seq::empty(),
                        inner,
                    );
                    match branches.res {
                        Err(error) => failed(error, branches.to),
                        Ok(clauses) => {
                            let rbrace = expect_one(t, branches.to, Tok::Rbrace);
                            match rbrace.res {
                                Err(error) => failed(error, rbrace.to),
                                Ok((_, end)) => if subjects.len() == 0 {
                                    error_at(
                                        ParseErrorType::ExpectedExpr,
                                        span(start, case_end),
                                        rbrace.to,
                                    )
                                } else if clauses.len() == 0 {
                                    error_at(
                                        ParseErrorType::NoCaseClause,
                                        span(start, end),
                                        rbrace.to,
                                    )
                                } else {
                                    found(
                                        ExprView::Case {
                                            location: span(start, end),
                                            subjects,
                                            clauses,
                                        },
                                        rbrace.to,
                                    )
                                },
                            }
                        },
                    }
                },
            }
        },
    }
}

/// An expression with all field accesses and calls behind it.
pub open spec fn unit_tail(t: Toks, c: Cursor, expr: ExprView) -> Step<ExprView>
    decreases ahead(t, c), 0nat,
{
    let to = next(t, c);
    if one(t, c, Tok::Dot) is Some {
        let field = field_access(t, to, expr);
        match field.res {
            Err(error) => failed(error, field.to),
            Ok(longer) => unit_tail(t, field.to, longer),
        }
    } else if one(t, c, Tok::Lpar) is Some {
        let made = call_or_update(t, to, expr);
        match made.res {
            Err(error) => failed(error, made.to),
            Ok(longer) => unit_tail(t, from(t, to, made.to), longer),
        }
    } else {
        found(expr, c)
    }
}

/// An element of a tuple or a field of a record, behind the dot.
pub open spec fn field_access(t: Toks, c: Cursor, expr: ExprView) -> Step<ExprView> {
    let start = expr.location().start;
    let to = next(t, c);
    match peek(t, c) {
        Some((_, Tok::Int { value }, end)) => match decimal(value@) {
            Some(index) => found(
                ExprView::TupleIndex { location: span(start, end), index, tuple: Box::new(expr) },
                to,
            ),
            None => error_at(ParseErrorType::InvalidTupleAccess, span(start, end), to),
        },
        Some((_, Tok::Name { name }, end)) => found(
            ExprView::FieldAccess {
                location: span(start, end),
                label: name@,
                container: Box::new(expr),
            },
            to,
        ),
        Some((_, Tok::UpName { name }, end)) => found(
            ExprView::FieldAccess {
                location: span(start, end),
                label: name@,
                container: Box::new(expr),
            },
            to,
        ),
        _ => unexpected(t, c, seq!["A positive integer or a field name."@]),
    }
}

/// The rest of a record update or of a call, behind the opening parenthesis.
pub open spec fn call_or_update(t: Toks, c: Cursor, expr: ExprView) -> Step<ExprView>
    decreases ahead(t, c), 8nat,
{
    let start = expr.location().start;
    match (peek(t, c), peek_second(t, c)) {
        (Some((dot_start, Tok::DotDot, _)), _) => record_update(t, next(t, c), expr, dot_start),
        (Some((name_start, Tok::Name { name }, _)), Some((_, Tok::DotDot, dot_end))) => new_values(
            t,
            next(t, next(t, c)),
            expr,
            SpreadView { name: name@, location: span(name_start, dot_end) },
        ),
        _ => {
            let args = fn_args(t, c);
            match args.res {
                Err(error) => failed(error, args.to),
                Ok(arguments) => {
                    let rpar = expect_one(t, args.to, Tok::Rpar);
                    match rpar.res {
                        Err(error) => failed(error, rpar.to),
                        Ok((_, end)) => Step {
                            res: call(expr, arguments, start, end),
                            to: rpar.to,
                        },
                    }
                },
            }
        },
    }
}

/// The rest of a record update, behind the `..` that comes before the record.
pub open spec fn record_update(
    t: Toks,
    c: Cursor,
    expr: ExprView,
    dot_start: usize,
) -> Step<ExprView>
    decreases ahead(t, c), 8nat,
{
    let record = expect_name(t, c);
    match record.res {
        Err(error) => failed(error, record.to),
        Ok((_, name, name_end)) => new_values(
            t,
            record.to,
            expr,
            SpreadView { name, location: span(dot_start, name_end) },
        ),
    }
}

/// The rest of a record update, behind the record that is updated.
pub open spec fn new_values(
    t: Toks,
    c: Cursor,
    expr: ExprView,
    spread: SpreadView,
) -> Step<ExprView>
    decreases ahead(t, c), 8nat,
{
    let updates = if one(t, c, Tok::Comma) is Some {
        let inner = next(t, c);
        series(update_arg_from(t, inner), t, Some(Tok::Comma), Seq::empty(), inner)
    } else {
        found(Seq::empty(), c)
    };
    match updates.res {
        Err(error) => failed(error, updates.to),
        Ok(args) => {
            let rpar = expect_one(t, updates.to, Tok::Rpar);
            match rpar.res {
                Err(error) => failed(error, rpar.to),
                Ok((_, end)) => found(
                    ExprView::RecordUpdate {
                        location: span(expr.location().start, end),
                        constructor: Box::new(expr),
                        spread,
                        args,
                    },
                    rpar.to,
                ),
            }
        },
    }
}

/// A new value for a field of a record.
pub open spec fn update_arg(t: Toks, c: Cursor) -> Step<Option<RecordUpdateArgView>>
    decreases ahead(t, c), 4nat,
{
    match maybe_name(t, c) {
        None => found(None, c),
        Some((start, label, _)) => {
            let colon = expect_one(t, next(t, c), Tok::Colon);
            match colon.res {
                Err(error) => failed(error, colon.to),
                Ok(_) => {
                    let expr = expression(t, colon.to);
                    match expr.res {
                        Err(error) => failed(error, expr.to),
                        Ok(None) => unexpected(t, expr.to, seq!["An expression"@]),
                        Ok(Some(value)) => found(
                            Some(
                                RecordUpdateArgView {
                                    label,
                                    location: span(start, value.location().end),
                                    value,
                                },
                            ),
                            expr.to,
                        ),
                    }
                },
            }
        },
    }
}

/// A new value for a field of a record at a place behind `c`.
pub open spec fn update_arg_from(t: Toks, c: Cursor) -> spec_fn(Cursor) -> Step<
    Option<RecordUpdateArgView>,
>
    decreases ahead(t, c), 5nat,
{
    |d: Cursor| update_arg(t, from(t, c, d))
}

/// Arguments of a call with commas between them.
pub open spec fn fn_args(t: Toks, c: Cursor) -> Step<Seq<ParserArgView>>
    decreases ahead(t, c), 6nat,
{
    series(fn_arg_from(t, c), t, Some(Tok::Comma), Seq::empty(), c)
}

/// An argument of a call, which may have a label: an expression or a hole.
pub open spec fn fn_arg(t: Toks, c: Cursor) -> Step<Option<ParserArgView>>
    decreases ahead(t, c), 4nat,
{
    let (label, at_value) = match (peek(t, c), peek_second(t, c)) {
        (Some((start, Tok::Name { name }, _)), Some((_, Tok::Colon, _))) => (
            Some((start, name@)),
            next(t, next(t, c)),
        ),
        _ => (None, c),
    };
    let label_text = match label {
        Some((_, text)) => Some(text),
        None => None,
    };
    let expr = expression(t, at_value);
    match expr.res {
        Err(error) => failed(error, expr.to),
        Ok(Some(value)) => found(
            Some(
                ParserArgView::Arg(
                    CallArgView {
                        label: label_text,
                        location: span(
                            match label {
                                Some((start, _)) => start,
                                None => value.location().start,
                            },
                            value.location().end,
                        ),
                        value,
                    },
                ),
            ),
            expr.to,
        ),
        Ok(None) => match maybe_discard_name(t, expr.to) {
            Some((start, _, end)) => found(
                Some(ParserArgView::Hole { location: span(start, end), label: label_text }),
                next(t, expr.to),
            ),
            None => found(None, expr.to),
        },
    }
}

/// An argument of a call at a place behind `c`.
pub open spec fn fn_arg_from(t: Toks, c: Cursor) -> spec_fn(Cursor) -> Step<Option<ParserArgView>>
    decreases ahead(t, c), 5nat,
{
    |d: Cursor| fn_arg(t, from(t, c, d))
}

/// An expression that has to be there.
pub open spec fn expect_expression(t: Toks, c: Cursor) -> Step<ExprView>
    decreases ahead(t, c), 4nat,
{
    let expr = expression(t, c);
    match expr.res {
        Err(error) => failed(error, expr.to),
        Ok(Some(value)) => found(value, expr.to),
        Ok(None) => unexpected(t, expr.to, seq!["An expression"@]),
    }
}

/// An expression that has to be there, at a place behind `c`.
pub open spec fn expect_expression_from(t: Toks, c: Cursor) -> spec_fn(Cursor) -> Step<ExprView>
    decreases ahead(t, c), 5nat,
{
    |d: Cursor| expect_expression(t, from(t, c, d))
}

/// Expressions with commas between them.
pub open spec fn expressions(t: Toks, c: Cursor) -> Step<Seq<ExprView>>
    decreases ahead(t, c), 5nat,
{
    series(expression_from(t, c), t, Some(Tok::Comma), Seq::empty(), c)
}

/// An expression at a place behind `c`.
pub open spec fn expression_from(t: Toks, c: Cursor) -> spec_fn(Cursor) -> Step<Option<ExprView>>
    decreases ahead(t, c), 4nat,
{
    |d: Cursor| expression(t, from(t, c, d))
}

/// A segment of a bit string.
pub open spec fn expr_segment(t: Toks, c: Cursor) -> Step<Option<SegmentView<ExprView>>>
    decreases ahead(t, c), 6nat,
{
    segment(
        expr_unit(t, c),
        expect_expression_from(t, c),
        expr_number(),
        location_in::<UntypedExpr>(),
        t,
    )
}

/// A segment of a bit string at a place behind `c`.
pub open spec fn expr_segment_from(t: Toks, c: Cursor) -> spec_fn(Cursor) -> Step<
    Option<SegmentView<ExprView>>,
>
    decreases ahead(t, c), 7nat,
{
    |d: Cursor| expr_segment(t, from(t, c, d))
}

/// A number as an expression.
pub open spec fn expr_number() -> spec_fn(Text, usize, usize) -> ExprView {
    |value: Text, start: usize, end: usize| ExprView::Int { location: span(start, end), value }
}

/// The keyword that starts a binding, if it comes next.
pub open spec fn binding_start(t: Toks, c: Cursor) -> Option<(usize, BindingKind)> {
    match peek(t, c) {
        Some((start, Tok::Let, _)) => Some((start, BindingKind::Let)),
        Some((start, Tok::Assert, _)) => Some((start, BindingKind::Assert)),
        Some((start, Tok::Try, _)) => Some((start, BindingKind::Try)),
        _ => None,
    }
}

/// One or more expressions and bindings, the last of which is no binding, and where they end.
pub open spec fn expression_seq(t: Toks, c: Cursor) -> Step<Option<(ExprView, usize)>>
    decreases ahead(t, c), 4nat,
{
    match binding_start(t, c) {
        Some((start, kind)) => some_of(binding(t, next(t, c), start, kind)),
        None => {
            let first = expression(t, c);
            match first.res {
                Err(error) => failed(error, first.to),
                Ok(None) => found(None, first.to),
                Ok(Some(expr)) => if c.at < t.len() {
                    some_of(seq_rest(t, after(t, c, first.to), expr))
                } else {
                    found(Some((expr, expr.location().end)), first.to)
                },
            }
        },
    }
}

/// An expression with all that follows it in its sequence.
pub open spec fn seq_rest(t: Toks, c: Cursor, expr: ExprView) -> Step<(ExprView, usize)>
    decreases ahead(t, c), 5nat,
{
    let more = expression_seq(t, c);
    match more.res {
        Err(error) => failed(error, more.to),
        Ok(None) => found((expr, expr.location().end), more.to),
        Ok(Some((follower, _))) => {
            let longer = ExprView::Sequence { first: Box::new(expr), then: Box::new(follower) };
            if c.at < t.len() {
                seq_rest(t, after(t, c, more.to), longer)
            } else {
                found((longer, longer.location().end), more.to)
            }
        },
    }
}

/// The rest of a binding, behind its keyword, with the sequence that has to follow.
pub open spec fn binding(t: Toks, c: Cursor, start: usize, kind: BindingKind) -> Step<
    (ExprView, usize),
>
    decreases ahead(t, c), 6nat,
{
    let pat = pattern(t, c);
    match pat.res {
        Err(error) => failed(error, pat.to),
        Ok(None) => unexpected(
            t,
            pat.to,
            seq!["A pattern"@, "See: https://gleam.run/book/tour/patterns"@],
        ),
        Ok(Some(target)) => {
            let typ = type_annotation(t, pat.to, Tok::Colon, false);
            match typ.res {
                Err(error) => failed(error, typ.to),
                Ok(annotation) => {
                    let equal = expect_one(t, typ.to, Tok::Equal);
                    match equal.res {
                        Err(error) => failed(error, equal.to),
                        Ok((equal_start, equal_end)) => bound_value(
                            t,
                            from(t, c, equal.to),
                            (start, kind, target, annotation),
                            (equal_start, equal_end),
                        ),
                    }
                },
            }
        },
    }
}

/// The value of a binding and the sequence that has to follow, behind the `=`.
pub open spec fn bound_value(
    t: Toks,
    c: Cursor,
    head: (usize, BindingKind, PatternView, Option<TypeView>),
    equal: (usize, usize),
) -> Step<(ExprView, usize)>
    decreases ahead(t, c), 5nat,
{
    let (start, kind, pattern, annotation) = head;
    let first = expression(t, c);
    match first.res {
        Err(error) => failed(error, first.to),
        Ok(value) => {
            let rest = expression_seq(t, from(t, c, first.to));
            match rest.res {
                Err(error) => failed(error, rest.to),
                Ok(follower) => match (value, follower) {
                    (None, _) => error_at(
                        ParseErrorType::ExpectedValue,
                        span(equal.0, equal.1),
                        rest.to,
                    ),
                    (Some(expr), None) => error_at(
                        ParseErrorType::ExprTailBinding,
                        span(start, expr.location().end),
                        rest.to,
                    ),
                    (Some(expr), Some((then, end))) => found(
                        (
                            ExprView::Let {
                                location: span(start, expr.location().end),
                                value: Box::new(expr),
                                pattern,
                                then: Box::new(then),
                                kind,
                                annotation,
                            },
                            end,
                        ),
                        rest.to,
                    ),
                },
            }
        },
    }
}

/// A clause of a case expression.
pub open spec fn case_clause(t: Toks, c: Cursor) -> Step<Option<ClauseView>>
    decreases ahead(t, c), 4nat,
{
    let pats = patterns(t, c);
    match pats.res {
        Err(error) => failed(error, pats.to),
        Ok(pattern) => if pattern.len() == 0 {
            found(None, pats.to)
        } else {
            let others = alternatives(t, pats.to, Seq::empty());
            match others.res {
                Err(error) => failed(error, others.to),
                Ok(alternative_patterns) => {
                    let condition = guard(t, others.to, false);
                    match condition.res {
                        Err(error) => failed(error, condition.to),
                        Ok(guard) => {
                            let arrow = expect_one(t, condition.to, Tok::RArrow);
                            match arrow.res {
                                Err(error) => failed(error, arrow.to),
                                Ok((arrow_start, arrow_end)) => {
                                    let body = expression(t, from(t, c, arrow.to));
                                    match body.res {
                                        Err(error) => failed(error, body.to),
                                        Ok(None) => error_at(
                                            ParseErrorType::ExpectedExpr,
                                            span(arrow_start, arrow_end),
                                            body.to,
                                        ),
                                        Ok(Some(then)) => found(
                                            Some(
                                                ClauseView {
                                                    location: span(
                                                        pattern[0].location().start,
                                                        then.location().end,
                                                    ),
                                                    pattern,
                                                    alternative_patterns,
                                                    guard,
                                                    then,
                                                },
                                            ),
                                            body.to,
                                        ),
                                    }
                                },
                            }
                        },
                    }
                },
            }
        },
    }
}

/// A clause of a case expression at a place behind `c`.
pub open spec fn case_clause_from(t: Toks, c: Cursor) -> spec_fn(Cursor) -> Step<
    Option<ClauseView>,
>
    decreases ahead(t, c), 5nat,
{
    |d: Cursor| case_clause(t, from(t, c, d))
}

/// The alternative patterns of a clause, behind those that have been read. Each stands behind a
/// bar.
pub open spec fn alternatives(t: Toks, c: Cursor, before: Seq<Seq<PatternView>>) -> Step<
    Seq<Seq<PatternView>>,
>
    decreases ahead(t, c),
{
    if one(t, c, Tok::Vbar) is Some {
        let pats = patterns(t, next(t, c));
        match pats.res {
            Err(error) => failed(error, pats.to),
            Ok(alternative) => alternatives(t, after(t, c, pats.to), before.push(alternative)),
        }
    } else {
        found(before, c)
    }
}

/// The rest of a function, behind its `fn`. An anonymous one has no name and reaches up to the
/// end of its body.
pub open spec fn function(
    t: Toks,
    c: Cursor,
    start: usize,
    public: bool,
    is_anon: bool,
) -> Step<Option<StatementView>>
    decreases ahead(t, c), 7nat,
{
    let named = if is_anon {
        found(Seq::empty(), c)
    } else {
        let step = expect_name(t, c);
        match step.res {
            Err(error) => failed(error, step.to),
            Ok((_, name, _)) => found(name, step.to),
        }
    };
    match named.res {
        Err(error) => failed(error, named.to),
        Ok(name) => {
            let head = fn_head(t, named.to);
            match head.res {
                Err(error) => failed(error, head.to),
                Ok((args, rpar_end, return_annotation)) => {
                    let inner = expression_seq(t, from(t, c, head.to));
                    match inner.res {
                        Err(error) => failed(error, inner.to),
                        Ok(None) => unexpected(t, inner.to, seq!["The body of a function"@]),
                        Ok(Some((body, _))) => {
                            let rbrace = expect_one(t, inner.to, Tok::Rbrace);
                            match rbrace.res {
                                Err(error) => failed(error, rbrace.to),
                                Ok((_, rbrace_end)) => found(
                                    Some(
                                        StatementView::Fn {
                                            location: span(
                                                start,
                                                match return_annotation {
                                                    Some(typ) => typ.location().end,
                                                    None => if is_anon {
                                                        rbrace_end
                                                    } else {
                                                        rpar_end
                                                    },
                                                },
                                            ),
                                            end_location: (rbrace_end - 1) as usize,
                                            name,
                                            args,
                                            body,
                                            public,
                                            return_annotation,
                                            doc: None,
                                        },
                                    ),
                                    rbrace.to,
                                ),
                            }
                        },
                    }
                },
            }
        },
    }
}

/// The parameters of a function, where they end, and the type that it returns; up to the brace
/// that opens its body.
#[verifier::opaque]
pub open spec fn fn_head(t: Toks, c: Cursor) -> Step<
    (Seq<ArgView>, usize, Option<TypeView>),
> {
    let lpar = expect_one(t, c, Tok::Lpar);
    match lpar.res {
        Err(error) => failed(error, lpar.to),
        Ok(_) => {
            let params = series(fn_param_in(t), t, Some(Tok::Comma), Seq::empty(), lpar.to);
            match params.res {
                Err(error) => failed(error, params.to),
                Ok(args) => {
                    let rpar = expect_one(t, params.to, Tok::Rpar);
                    match rpar.res {
                        Err(error) => failed(error, rpar.to),
                        Ok((_, rpar_end)) => {
                            let typ = type_annotation(t, rpar.to, Tok::RArrow, false);
                            match typ.res {
                                Err(error) => failed(error, typ.to),
                                Ok(return_annotation) => {
                                    let lbrace = expect_one(t, typ.to, Tok::Lbrace);
                                    match lbrace.res {
                                        Err(error) => failed(error, lbrace.to),
                                        Ok(_) => found(
                                            (args, rpar_end, return_annotation),
                                            lbrace.to,
                                        ),
                                    }
                                },
                            }
                        },
                    }
                },
            }
        },
    }
}

/// The names of a parameter: its label, if it has one, and what it is called inside the function;
/// with the offsets between which they stand, and the place behind them.
pub open spec fn param_names(t: Toks, c: Cursor) -> Option<(usize, ArgNamesView, usize, Cursor)> {
    let to = next(t, c);
    match (peek(t, c), peek_second(t, c)) {
        (
            Some((start, Tok::Name { name: label }, _)),
            Some((_, Tok::DiscardName { name }, end)),
        ) => Some(
            (start, ArgNamesView::LabelledDiscard { label: label@, name: name@ }, end, next(t, to)),
        ),
        (Some((start, Tok::Name { name: label }, _)), Some((_, Tok::Name { name }, end))) => Some(
            (start, ArgNamesView::NamedLabelled { name: name@, label: label@ }, end, next(t, to)),
        ),
        (Some((start, Tok::DiscardName { name }, end)), _) => Some(
            (start, ArgNamesView::Discard { name: name@ }, end, to),
        ),
        (Some((start, Tok::Name { name }, end)), _) => Some(
            (start, ArgNamesView::Named { name: name@ }, end, to),
        ),
        _ => None,
    }
}

/// A parameter of a function.
pub open spec fn fn_param(t: Toks, c: Cursor) -> Step<Option<ArgView>> {
    match param_names(t, c) {
        None => found(None, c),
        Some((start, names, names_end, to)) => {
            let typ = type_annotation(t, to, Tok::Colon, false);
            match typ.res {
                Err(error) => failed(error, typ.to),
                Ok(annotation) => found(
                    Some(
                        ArgView {
                            names,
                            location: span(
                                start,
                                match annotation {
                                    Some(ty) => ty.location().end,
                                    None => names_end,
                                },
                            ),
                            annotation,
                        },
                    ),
                    typ.to,
                ),
            }
        },
    }
}

/// A parameter of a function, at a place of a stream.
pub open spec fn fn_param_in(t: Toks) -> spec_fn(Cursor) -> Step<Option<ArgView>> {
    |c: Cursor| fn_param(t, c)
}

} // verus!
