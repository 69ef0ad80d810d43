//! Expressions elsewhere.

use crate::ast::{BindingKind, UntypedExpr};
use crate::call::{call, ParserArgView};
use crate::error::ParseErrorType;
use crate::grammar::basics::{
    error_at, expect_name, expect_one, failed, found, maybe_name, nothing, one, series, skip_one,
    some_of, span, unexpected, Step,
};
use crate::grammar::exprs::{
    alternatives, binding, binding_start, bit_string_expr, block_expr, bound_value, call_or_update,
    case_clause, case_clause_from, case_expr, expect_expression, expect_expression_from, expr_chain,
    expr_head, expr_number, expr_segment, expr_segment_from, expr_unit, expression, expression_from,
    expression_seq, expressions, field_access, fn_arg, fn_arg_from, fn_args, fn_expr, fn_head,
    fn_param, fn_param_in, function, list_expr, list_of, new_values, param_names, record_update,
    seq_rest, tuple_expr, unit_tail, update_arg, update_arg_from,
};
use crate::grammar::guards::guard;
use crate::grammar::patterns::{pattern, patterns};
use crate::grammar::types::type_annotation;
use crate::laws::elsewhere::{series_elsewhere, Stretch};
use crate::laws::elsewhere::guards::guards_are_the_same_elsewhere;
use crate::laws::elsewhere::patterns::{
    lists_of_patterns_are_the_same_elsewhere, patterns_are_the_same_elsewhere,
};
use crate::laws::elsewhere::segments::segments_are_the_same_elsewhere;
use crate::laws::elsewhere::types::annotations_are_the_same_elsewhere;
use crate::laws::places::{advances, finds, moves, series_moves};
use crate::laws::places::exprs::{
    alternatives_move, binding_moves, bit_string_expr_moves, block_expr_moves, bound_value_moves,
    call_or_update_moves, case_clause_is_found, case_expr_moves, expr_chain_is_found,
    expr_head_is_found, expr_segment_is_found, expr_unit_is_found, expression_is_found,
    expression_seq_is_found, expressions_move, fn_arg_is_found, fn_args_move, fn_expr_moves,
    fn_head_moves, fn_param_is_found, function_is_found, list_expr_moves, new_values_move,
    record_update_moves, seq_rest_moves, tuple_expr_moves, unit_tail_moves, update_arg_is_found,
};
use crate::laws::places::guards::guard_is_found;
use crate::laws::places::patterns::{pattern_is_found, patterns_move};
use crate::laws::places::types::type_annotation_is_found;
use crate::location::location_in;
use crate::model::{
    ArgView, ClauseView, ExprView, GuardView, PatternView, RecordUpdateArgView, SpreadView,
    StatementView, Text, TypeView,
};
use crate::operator::expr_precedence;
use crate::precedence::Op;
use crate::stream::{ahead, from, next, peek, peek_second, Cursor, Toks};
use crate::token::Tok;
use vstd::prelude::*;

verus! {

/// Where the same tokens stand elsewhere, the same expression is found.
pub proof fn expressions_are_the_same_elsewhere(s: Stretch, c: Cursor)
    requires
        s.fits(),
        c.at <= s.here.len(),
    ensures
        s.same(expression(s.here, c), expression(s.there, s.across(c))),
    decreases ahead(s.here, c), 3nat,
{
    lemma_expr_chain(s, c, Seq::empty(), Seq::empty());
}

#[verifier::rlimit(40)]
proof fn lemma_expr_chain(s: Stretch, c: Cursor, units: Seq<ExprView>, ops: Seq<Op>)
    requires
        s.fits(),
        c.at <= s.here.len(),
    ensures
        s.same(expr_chain(s.here, c, units, ops), expr_chain(s.there, s.across(c), units, ops)),
    decreases ahead(s.here, c), 2nat,
{
    let t = s.here;
    expr_chain_is_found(t, c, units, ops);
    expr_unit_is_found(t, c);
    units_are_the_same_elsewhere(s, c);
    let unit = expr_unit(t, c);
    if let Ok(Some(value)) = unit.res {
        if let Some((start, tok, end)) = peek(t, unit.to) {
            if let Some(p) = expr_precedence(tok) {
                let behind = next(t, unit.to);
                let more_units = units.push(value);
                let more_ops = ops.push(((start, tok, end), p));
                expr_chain_is_found(t, behind, more_units, more_ops);
                lemma_expr_chain(s, behind, more_units, more_ops);
            }
        }
    }
}

/// Where the same tokens stand elsewhere, the same unit of an expression is found.
pub proof fn units_are_the_same_elsewhere(s: Stretch, c: Cursor)
    requires
        s.fits(),
        c.at <= s.here.len(),
    ensures
        s.same(expr_unit(s.here, c), expr_unit(s.there, s.across(c))),
    decreases ahead(s.here, c), 1nat,
{
    let t = s.here;
    expr_unit_is_found(t, c);
    expr_head_is_found(t, c);
    lemma_expr_head(s, c);
    let head = expr_head(t, c);
    if let Ok(Some(expr)) = head.res {
        unit_tail_moves(t, head.to, expr);
        lemma_unit_tail(s, head.to, expr);
    }
}

proof fn lemma_expr_head(s: Stretch, c: Cursor)
    requires
        s.fits(),
        c.at <= s.here.len(),
    ensures
        s.same(expr_head(s.here, c), expr_head(s.there, s.across(c))),
    decreases ahead(s.here, c), 0nat,
{
    let (t, u) = (s.here, s.there);
    let to = next(t, c);
    match peek(t, c) {
        Some((start, Tok::Tuple, _)) => {
            tuple_expr_moves(t, to, start);
            lemma_tuple_expr(s, to, start);
            lemma_head_is(s, c, tuple_expr(t, to, start), tuple_expr(u, s.across(to), start));
        },
        Some((start, Tok::Lsqb, _)) => {
            list_expr_moves(t, to, start);
            lemma_list_expr(s, to, start);
            lemma_head_is(s, c, list_expr(t, to, start), list_expr(u, s.across(to), start));
        },
        Some((start, Tok::LtLt, _)) => {
            bit_string_expr_moves(t, to, start);
            lemma_bit_string_expr(s, to, start);
            lemma_head_is(
                s,
                c,
                bit_string_expr(t, to, start),
                bit_string_expr(u, s.across(to), start),
            );
        },
        Some((start, Tok::Fn, _)) => {
            fn_expr_moves(t, to, start);
            lemma_fn_expr(s, to, start);
            lemma_head_is(s, c, fn_expr(t, to, start), fn_expr(u, s.across(to), start));
        },
        Some((start, Tok::Lbrace, _)) => {
            block_expr_moves(t, to, start);
            lemma_block_expr(s, to, start);
            lemma_head_is(s, c, block_expr(t, to, start), block_expr(u, s.across(to), start));
        },
        Some((start, Tok::Case, end)) => {
            case_expr_moves(t, to, start, end);
            lemma_case_expr(s, to, start, end);
            lemma_head_is(
                s,
                c,
                case_expr(t, to, start, end),
                case_expr(u, s.across(to), start, end),
            );
        },
        _ => {
            lemma_short_head(s, c);
        },
    }
}

proof fn lemma_head_is(s: Stretch, c: Cursor, here: Step<ExprView>, there: Step<ExprView>)
    requires
        s.fits(),
        moves(s.here, next(s.here, c), here),
        s.same(here, there),
        head_starts(s.here, c, here),
        peek(s.there, s.across(c)) == peek(s.here, c) && next(s.there, s.across(c)) == s.across(
            next(s.here, c),
        ) ==> head_starts(s.there, s.across(c), there),
    ensures
        s.same(expr_head(s.here, c), expr_head(s.there, s.across(c))),
{
    assert(expr_head(s.here, c) == some_of(here));
    if s.covers(some_of(here)) {
        assert(peek(s.there, s.across(c)) == peek(s.here, c));
        assert(next(s.there, s.across(c)) == s.across(next(s.here, c)));
        assert(expr_head(s.there, s.across(c)) == some_of(there));
    }
}

/// Whether a step is what a unit starts with.
spec fn head_starts(t: Toks, c: Cursor, step: Step<ExprView>) -> bool {
    let to = next(t, c);
    match peek(t, c) {
        Some((start, Tok::Tuple, _)) => step == tuple_expr(t, to, start),
        Some((start, Tok::Lsqb, _)) => step == list_expr(t, to, start),
        Some((start, Tok::LtLt, _)) => step == bit_string_expr(t, to, start),
        Some((start, Tok::Fn, _)) => step == fn_expr(t, to, start),
        Some((start, Tok::Lbrace, _)) => step == block_expr(t, to, start),
        Some((start, Tok::Case, end)) => step == case_expr(t, to, start, end),
        _ => false,
    }
}

proof fn lemma_short_head(s: Stretch, c: Cursor)
    requires
        s.fits(),
        c.at <= s.here.len(),
        !(peek(s.here, c) matches Some(
            (_, Tok::Tuple | Tok::Lsqb | Tok::LtLt | Tok::Fn | Tok::Lbrace | Tok::Case, _),
        )),
    ensures
        s.same(expr_head(s.here, c), expr_head(s.there, s.across(c))),
{
    expr_head_is_found(s.here, c);
}

proof fn lemma_tuple_expr(s: Stretch, c: Cursor, start: usize)
    requires
        s.fits(),
        c.at <= s.here.len(),
    ensures
        s.same(tuple_expr(s.here, c, start), tuple_expr(s.there, s.across(c), start)),
    decreases ahead(s.here, c), 8nat,
{
    let t = s.here;
    let lpar = expect_one(t, c, Tok::Lpar);
    tuple_expr_moves(t, c, start);
    expressions_move(t, lpar.to);
    lemma_expressions(s, lpar.to);
}

proof fn lemma_list_expr(s: Stretch, c: Cursor, start: usize)
    requires
        s.fits(),
        c.at <= s.here.len(),
    ensures
        s.same(list_expr(s.here, c, start), list_expr(s.there, s.across(c), start)),
    decreases ahead(s.here, c), 8nat,
{
    let (t, u) = (s.here, s.there);
    expressions_move(t, c);
    lemma_expressions(s, c);
    let elems = expressions(t, c);
    let tail = expression_from(t, c);
    let other_tail = expression_from(u, s.across(c));
    let behind = next(t, elems.to);
    if one(t, elems.to, Tok::DotDot) is Some {
        expression_is_found(t, behind);
        expressions_are_the_same_elsewhere(s, behind);
        assert(tail(behind) == expression(t, behind));
        assert(s.same(tail(behind), other_tail(s.across(behind))));
    }
    lemma_list_with(s, c, (elems, expressions(u, s.across(c))), (tail, other_tail), start);
    lemma_list_is(t, c, start);
    lemma_list_is(u, s.across(c), start);
}

/// A list behind its `[`, with the elements that were found and a way to look for the tail.
spec fn list_with(
    t: Toks,
    elems: Step<Seq<ExprView>>,
    tail_at: spec_fn(Cursor) -> Step<Option<ExprView>>,
    start: usize,
) -> Step<ExprView> {
    match elems.res {
        Err(error) => failed(error, elems.to),
        Ok(elements) => {
            let rest = if one(t, elems.to, Tok::DotDot) is Some {
                let tail = tail_at(next(t, elems.to));
                match tail.res {
                    Err(error) => failed(error, tail.to),
                    Ok(tail_expr) => found(tail_expr, skip_one(t, tail.to, Tok::Comma)),
                }
            } else {
                found(None, elems.to)
            };
            match rest.res {
                Err(error) => failed(error, rest.to),
                Ok(tail) => {
                    let rsqb = expect_one(t, rest.to, Tok::Rsqb);
                    match rsqb.res {
                        Err(error) => failed(error, rsqb.to),
                        Ok((_, end)) => found(list_between(elements, tail, start, end), rsqb.to),
                    }
                },
            }
        },
    }
}

/// A list between its brackets.
spec fn list_between(
    elements: Seq<ExprView>,
    tail: Option<ExprView>,
    start: usize,
    end: usize,
) -> ExprView {
    list_of(
        elements,
        match tail {
            Some(expr) => expr,
            None => ExprView::ListNil { location: span(start, end) },
        },
    )
}

proof fn lemma_list_is(t: Toks, c: Cursor, start: usize)
    ensures
        list_expr(t, c, start) == list_with(t, expressions(t, c), expression_from(t, c), start),
{
}

proof fn lemma_list_with(
    s: Stretch,
    c: Cursor,
    elems: (Step<Seq<ExprView>>, Step<Seq<ExprView>>),
    tails: (spec_fn(Cursor) -> Step<Option<ExprView>>, spec_fn(Cursor) -> Step<Option<ExprView>>),
    start: usize,
)
    requires
        s.fits(),
        moves(s.here, c, elems.0),
        s.same(elems.0, elems.1),
        one(s.here, elems.0.to, Tok::DotDot) is Some ==> {
            let behind = next(s.here, elems.0.to);
            &&& moves(s.here, behind, (tails.0)(behind))
            &&& s.same((tails.0)(behind), (tails.1)(s.across(behind)))
        },
    ensures
        s.same(
            list_with(s.here, elems.0, tails.0, start),
            list_with(s.there, elems.1, tails.1, start),
        ),
{
}

proof fn lemma_bit_string_expr(s: Stretch, c: Cursor, start: usize)
    requires
        s.fits(),
        c.at <= s.here.len(),
    ensures
        s.same(bit_string_expr(s.here, c, start), bit_string_expr(s.there, s.across(c), start)),
    decreases ahead(s.here, c), 8nat,
{
    bit_string_expr_moves(s.here, c, start);
    lemma_expr_segments(s, c);
}

proof fn lemma_expr_segments(s: Stretch, c: Cursor)
    requires
        s.fits(),
        c.at <= s.here.len(),
    ensures
        moves(
            s.here,
            c,
            series(expr_segment_from(s.here, c), s.here, Some(Tok::Comma), Seq::empty(), c),
        ),
        s.same(
            series(expr_segment_from(s.here, c), s.here, Some(Tok::Comma), Seq::empty(), c),
            series(
                expr_segment_from(s.there, s.across(c)),
                s.there,
                Some(Tok::Comma),
                Seq::empty(),
                s.across(c),
            ),
        ),
    decreases ahead(s.here, c), 7nat,
{
    let t = s.here;
    let p = expr_segment_from(t, c);
    let q = expr_segment_from(s.there, s.across(c));
    assert forall|d: Cursor| c.at <= d.at <= t.len() implies advances(t, d, #[trigger] p(d))
        && s.same(p(d), q(s.across(d))) by {
        expr_segment_is_found(t, d);
        lemma_expr_segment(s, d);
    }
    series_moves(p, t, Some(Tok::Comma), Seq::empty(), c);
    series_elsewhere(s, p, q, Some(Tok::Comma), Seq::empty(), c);
}

proof fn lemma_fn_expr(s: Stretch, c: Cursor, start: usize)
    requires
        s.fits(),
        c.at <= s.here.len(),
    ensures
        s.same(fn_expr(s.here, c, start), fn_expr(s.there, s.across(c), start)),
    decreases ahead(s.here, c), 8nat,
{
    let t = s.here;
    fn_expr_moves(t, c, start);
    function_is_found(t, c, start, false, true);
    functions_are_the_same_elsewhere(s, c, start, false, true);
}

proof fn lemma_block_expr(s: Stretch, c: Cursor, start: usize)
    requires
        s.fits(),
        c.at <= s.here.len(),
    ensures
        s.same(block_expr(s.here, c, start), block_expr(s.there, s.across(c), start)),
    decreases ahead(s.here, c), 8nat,
{
    block_expr_moves(s.here, c, start);
    expression_seq_is_found(s.here, c);
    sequences_are_the_same_elsewhere(s, c);
}

proof fn lemma_case_expr(s: Stretch, c: Cursor, start: usize, case_end: usize)
    requires
        s.fits(),
        c.at <= s.here.len(),
    ensures
        s.same(
            case_expr(s.here, c, start, case_end),
            case_expr(s.there, s.across(c), start, case_end),
        ),
    decreases ahead(s.here, c), 8nat,
{
    let (t, u) = (s.here, s.there);
    expressions_move(t, c);
    lemma_expressions(s, c);
    let values = expressions(t, c);
    let lbrace = expect_one(t, values.to, Tok::Lbrace);
    lemma_clauses(s, lbrace.to);
    let clauses = clauses_from(t, c);
    let others = clauses_from(u, s.across(c));
    assert(s.same(clauses(lbrace.to), others(s.across(lbrace.to))));
    lemma_case_with(
        s,
        c,
        (values, expressions(u, s.across(c))),
        (clauses, others),
        start,
        case_end,
    );
    lemma_case_is(t, c, start, case_end);
    lemma_case_is(u, s.across(c), start, case_end);
}

/// The clauses of a case expression at a place behind `c`.
spec fn clauses_from(t: Toks, c: Cursor) -> spec_fn(Cursor) -> Step<Seq<ClauseView>> {
    |d: Cursor|
        series(case_clause_from(t, from(t, c, d)), t, None, Seq::empty(), from(t, c, d))
}

/// A case expression behind its `case`, with the values that were found and a way to look for its
/// clauses.
spec fn case_with(
    t: Toks,
    values: Step<Seq<ExprView>>,
    clauses_at: spec_fn(Cursor) -> Step<Seq<ClauseView>>,
    start: usize,
    case_end: usize,
) -> Step<ExprView> {
    match values.res {
        Err(error) => failed(error, values.to),
        Ok(subjects) => {
            let lbrace = expect_one(t, values.to, Tok::Lbrace);
            match lbrace.res {
                Err(error) => failed(error, lbrace.to),
                Ok(_) => {
                    let branches = clauses_at(lbrace.to);
                    match branches.res {
                        Err(error) => failed(error, branches.to),
                        Ok(clauses) => {
                            let rbrace = expect_one(t, branches.to, Tok::Rbrace);
                            match rbrace.res {
                                Err(error) => failed(error, rbrace.to),
                                Ok((_, end)) => if subjects.len() == 0 {
                                    error_at(
                                        ParseErrorType::ExpectedExpr,
                                        span(start, case_end),
                                        rbrace.to,
                                    )
                                } else if clauses.len() == 0 {
                                    error_at(
                                        ParseErrorType::NoCaseClause,
                                        span(start, end),
                                        rbrace.to,
                                    )
                                } else {
                                    found(
                                        ExprView::Case {
                                            location: span(start, end),
                                            subjects,
                                            clauses,
                                        },
                                        rbrace.to,
                                    )
                                },
                            }
                        },
                    }
                },
            }
        },
    }
}

proof fn lemma_case_is(t: Toks, c: Cursor, start: usize, case_end: usize)
    ensures
        case_expr(t, c, start, case_end) == case_with(
            t,
            expressions(t, c),
            clauses_from(t, c),
            start,
            case_end,
        ),
{
}

proof fn lemma_case_with(
    s: Stretch,
    c: Cursor,
    values: (Step<Seq<ExprView>>, Step<Seq<ExprView>>),
    clauses: (spec_fn(Cursor) -> Step<Seq<ClauseView>>, spec_fn(Cursor) -> Step<Seq<ClauseView>>),
    start: usize,
    case_end: usize,
)
    requires
        s.fits(),
        moves(s.here, c, values.0),
        s.same(values.0, values.1),
        ({
            let inner = expect_one(s.here, values.0.to, Tok::Lbrace).to;
            &&& moves(s.here, inner, (clauses.0)(inner))
            &&& s.same((clauses.0)(inner), (clauses.1)(s.across(inner)))
        }),
    ensures
        s.same(
            case_with(s.here, values.0, clauses.0, start, case_end),
            case_with(s.there, values.1, clauses.1, start, case_end),
        ),
{
}

proof fn lemma_clauses(s: Stretch, c: Cursor)
    requires
        s.fits(),
        c.at <= s.here.len(),
    ensures
        moves(s.here, c, series(case_clause_from(s.here, c), s.here, None, Seq::empty(), c)),
        s.same(
            series(case_clause_from(s.here, c), s.here, None, Seq::empty(), c),
            series(
                case_clause_from(s.there, s.across(c)),
                s.there,
                None,
                Seq::empty(),
                s.across(c),
            ),
        ),
    decreases ahead(s.here, c), 5nat,
{
    let t = s.here;
    let p = case_clause_from(t, c);
    let q = case_clause_from(s.there, s.across(c));
    assert forall|d: Cursor| c.at <= d.at <= t.len() implies advances(t, d, #[trigger] p(d))
        && s.same(p(d), q(s.across(d))) by {
        case_clause_is_found(t, d);
        clauses_are_the_same_elsewhere(s, d);
    }
    series_moves(p, t, None, Seq::empty(), c);
    series_elsewhere(s, p, q, None, Seq::empty(), c);
}

proof fn lemma_unit_tail(s: Stretch, c: Cursor, expr: ExprView)
    requires
        s.fits(),
        c.at <= s.here.len(),
    ensures
        s.same(unit_tail(s.here, c, expr), unit_tail(s.there, s.across(c), expr)),
    decreases ahead(s.here, c), 0nat,
{
    let t = s.here;
    let to = next(t, c);
    unit_tail_moves(t, c, expr);
    if one(t, c, Tok::Dot) is Some {
        let field = field_access(t, to, expr);
        if let Ok(longer) = field.res {
            unit_tail_moves(t, field.to, longer);
            lemma_unit_tail(s, field.to, longer);
        }
    } else if one(t, c, Tok::Lpar) is Some {
        call_or_update_moves(t, to, expr);
        lemma_call_or_update(s, to, expr);
        let made = call_or_update(t, to, expr);
        if let Ok(longer) = made.res {
            unit_tail_moves(t, made.to, longer);
            lemma_unit_tail(s, made.to, longer);
        }
    }
}

proof fn lemma_call_or_update(s: Stretch, c: Cursor, expr: ExprView)
    requires
        s.fits(),
        c.at <= s.here.len(),
    ensures
        s.same(call_or_update(s.here, c, expr), call_or_update(s.there, s.across(c), expr)),
    decreases ahead(s.here, c), 8nat,
{
    let t = s.here;
    match (peek(t, c), peek_second(t, c)) {
        (Some((dot_start, Tok::DotDot, _)), _) => {
            record_update_moves(t, next(t, c), expr, dot_start);
            lemma_record_update(s, next(t, c), expr, dot_start);
            lemma_update_behind_dots(s, c, expr, dot_start);
        },
        (Some((name_start, Tok::Name { name }, _)), Some((_, Tok::DotDot, dot_end))) => {
            let spread = SpreadView { name: name@, location: span(name_start, dot_end) };
            new_values_move(t, next(t, next(t, c)), expr, spread);
            lemma_new_values(s, next(t, next(t, c)), expr, spread);
            lemma_update_before_dots(s, c, expr, spread);
        },
        _ => {
            fn_args_move(t, c);
            lemma_fn_args(s, c);
            lemma_call(s, c, expr);
        },
    }
}

proof fn lemma_update_behind_dots(s: Stretch, c: Cursor, expr: ExprView, dot_start: usize)
    requires
        s.fits(),
        peek(s.here, c) matches Some((start, Tok::DotDot, _)) && start == dot_start,
        ({
            let step = record_update(s.here, next(s.here, c), expr, dot_start);
            &&& moves(s.here, next(s.here, c), step)
            &&& s.same(step, record_update(s.there, s.across(next(s.here, c)), expr, dot_start))
        }),
    ensures
        s.same(call_or_update(s.here, c, expr), call_or_update(s.there, s.across(c), expr)),
{
}

proof fn lemma_update_before_dots(s: Stretch, c: Cursor, expr: ExprView, spread: SpreadView)
    requires
        s.fits(),
        match (peek(s.here, c), peek_second(s.here, c)) {
            (Some((start, Tok::Name { name }, _)), Some((_, Tok::DotDot, end))) => spread
                == (SpreadView { name: name@, location: span(start, end) }),
            _ => false,
        },
        ({
            let behind = next(s.here, next(s.here, c));
            let step = new_values(s.here, behind, expr, spread);
            &&& moves(s.here, behind, step)
            &&& s.same(step, new_values(s.there, s.across(behind), expr, spread))
        }),
    ensures
        s.same(call_or_update(s.here, c, expr), call_or_update(s.there, s.across(c), expr)),
{
}

proof fn lemma_call(s: Stretch, c: Cursor, expr: ExprView)
    requires
        s.fits(),
        !updates(s.here, c),
        moves(s.here, c, fn_args(s.here, c)),
        s.same(fn_args(s.here, c), fn_args(s.there, s.across(c))),
    ensures
        s.same(call_or_update(s.here, c, expr), call_or_update(s.there, s.across(c), expr)),
{
    let (t, u) = (s.here, s.there);
    let d = s.across(c);
    lemma_call_is(t, c, expr);
    lemma_call_with(s, c, (fn_args(t, c), fn_args(u, d)), expr);
    if s.covers(call_with(t, fn_args(t, c), expr)) {
        lemma_call_looks_ahead(s, c, fn_args(t, c), expr);
        lemma_call_is(u, d, expr);
    }
}

/// Whether a record update stands behind the opening parenthesis.
spec fn updates(t: Toks, c: Cursor) -> bool {
    match (peek(t, c), peek_second(t, c)) {
        (Some((_, Tok::DotDot, _)), _) => true,
        (Some((_, Tok::Name { .. }, _)), Some((_, Tok::DotDot, _))) => true,
        _ => false,
    }
}

/// A call behind its opening parenthesis, with the arguments that were found.
spec fn call_with(t: Toks, args: Step<Seq<ParserArgView>>, expr: ExprView) -> Step<ExprView> {
    match args.res {
        Err(error) => failed(error, args.to),
        Ok(arguments) => {
            let rpar = expect_one(t, args.to, Tok::Rpar);
            match rpar.res {
                Err(error) => failed(error, rpar.to),
                Ok((_, end)) => Step {
                    res: call(expr, arguments, expr.location().start, end),
                    to: rpar.to,
                },
            }
        },
    }
}

proof fn lemma_call_is(t: Toks, c: Cursor, expr: ExprView)
    requires
        !updates(t, c),
    ensures
        call_or_update(t, c, expr) == call_with(t, fn_args(t, c), expr),
{
}

proof fn lemma_call_looks_ahead(
    s: Stretch,
    c: Cursor,
    args: Step<Seq<ParserArgView>>,
    expr: ExprView,
)
    requires
        s.fits(),
        !updates(s.here, c),
        moves(s.here, c, args),
        s.covers(call_with(s.here, args, expr)),
    ensures
        !updates(s.there, s.across(c)),
{
}

proof fn lemma_call_with(
    s: Stretch,
    c: Cursor,
    args: (Step<Seq<ParserArgView>>, Step<Seq<ParserArgView>>),
    expr: ExprView,
)
    requires
        s.fits(),
        moves(s.here, c, args.0),
        s.same(args.0, args.1),
    ensures
        s.same(call_with(s.here, args.0, expr), call_with(s.there, args.1, expr)),
{
}

proof fn lemma_record_update(s: Stretch, c: Cursor, expr: ExprView, dot_start: usize)
    requires
        s.fits(),
        c.at <= s.here.len(),
    ensures
        s.same(
            record_update(s.here, c, expr, dot_start),
            record_update(s.there, s.across(c), expr, dot_start),
        ),
    decreases ahead(s.here, c), 8nat,
{
    let t = s.here;
    record_update_moves(t, c, expr, dot_start);
    let record = expect_name(t, c);
    if let Ok((_, name, name_end)) = record.res {
        let spread = SpreadView { name, location: span(dot_start, name_end) };
        lemma_new_values(s, record.to, expr, spread);
    }
}

proof fn lemma_new_values(s: Stretch, c: Cursor, expr: ExprView, spread: SpreadView)
    requires
        s.fits(),
        c.at <= s.here.len(),
    ensures
        s.same(new_values(s.here, c, expr, spread), new_values(s.there, s.across(c), expr, spread)),
    decreases ahead(s.here, c), 8nat,
{
    let t = s.here;
    new_values_move(t, c, expr, spread);
    if one(t, c, Tok::Comma) is Some {
        lemma_update_args(s, next(t, c));
    }
}

proof fn lemma_update_args(s: Stretch, c: Cursor)
    requires
        s.fits(),
        c.at <= s.here.len(),
    ensures
        moves(
            s.here,
            c,
            series(update_arg_from(s.here, c), s.here, Some(Tok::Comma), Seq::empty(), c),
        ),
        s.same(
            series(update_arg_from(s.here, c), s.here, Some(Tok::Comma), Seq::empty(), c),
            series(
                update_arg_from(s.there, s.across(c)),
                s.there,
                Some(Tok::Comma),
                Seq::empty(),
                s.across(c),
            ),
        ),
    decreases ahead(s.here, c), 5nat,
{
    let t = s.here;
    let p = update_arg_from(t, c);
    let q = update_arg_from(s.there, s.across(c));
    assert forall|d: Cursor| c.at <= d.at <= t.len() implies advances(t, d, #[trigger] p(d))
        && s.same(p(d), q(s.across(d))) by {
        update_arg_is_found(t, d);
        lemma_update_arg(s, d);
    }
    series_moves(p, t, Some(Tok::Comma), Seq::empty(), c);
    series_elsewhere(s, p, q, Some(Tok::Comma), Seq::empty(), c);
}

proof fn lemma_update_arg(s: Stretch, c: Cursor)
    requires
        s.fits(),
        c.at <= s.here.len(),
    ensures
        s.same(update_arg(s.here, c), update_arg(s.there, s.across(c))),
    decreases ahead(s.here, c), 4nat,
{
    let t = s.here;
    if maybe_name(t, c) is Some {
        let colon = expect_one(t, next(t, c), Tok::Colon);
        expression_is_found(t, colon.to);
        expressions_are_the_same_elsewhere(s, colon.to);
        lemma_new_value(s, c);
    } else {
        assert(update_arg(t, c) == found(None::<RecordUpdateArgView>, c));
    }
}

proof fn lemma_new_value(s: Stretch, c: Cursor)
    requires
        s.fits(),
        maybe_name(s.here, c) is Some,
        ({
            let behind = expect_one(s.here, next(s.here, c), Tok::Colon).to;
            &&& finds(s.here, behind, expression(s.here, behind))
            &&& s.same(expression(s.here, behind), expression(s.there, s.across(behind)))
        }),
    ensures
        s.same(update_arg(s.here, c), update_arg(s.there, s.across(c))),
{
}

proof fn lemma_fn_args(s: Stretch, c: Cursor)
    requires
        s.fits(),
        c.at <= s.here.len(),
    ensures
        s.same(fn_args(s.here, c), fn_args(s.there, s.across(c))),
    decreases ahead(s.here, c), 6nat,
{
    let t = s.here;
    let p = fn_arg_from(t, c);
    let q = fn_arg_from(s.there, s.across(c));
    assert forall|d: Cursor| c.at <= d.at <= t.len() implies advances(t, d, #[trigger] p(d))
        && s.same(p(d), q(s.across(d))) by {
        fn_arg_is_found(t, d);
        lemma_fn_arg(s, d);
    }
    series_elsewhere(s, p, q, Some(Tok::Comma), Seq::empty(), c);
}

proof fn lemma_fn_arg(s: Stretch, c: Cursor)
    requires
        s.fits(),
        c.at <= s.here.len(),
    ensures
        s.same(fn_arg(s.here, c), fn_arg(s.there, s.across(c))),
    decreases ahead(s.here, c), 4nat,
{
    let t = s.here;
    match (peek(t, c), peek_second(t, c)) {
        (Some((_, Tok::Name { .. }, _)), Some((_, Tok::Colon, _))) => {
            let behind = next(t, next(t, c));
            expression_is_found(t, behind);
            expressions_are_the_same_elsewhere(s, behind);
            lemma_labelled_arg(s, c);
        },
        _ => {
            expression_is_found(t, c);
            expressions_are_the_same_elsewhere(s, c);
            lemma_positional_arg(s, c);
        },
    }
}

proof fn lemma_labelled_arg(s: Stretch, c: Cursor)
    requires
        s.fits(),
        peek(s.here, c) matches Some((_, Tok::Name { .. }, _)),
        peek_second(s.here, c) matches Some((_, Tok::Colon, _)),
        ({
            let behind = next(s.here, next(s.here, c));
            &&& finds(s.here, behind, expression(s.here, behind))
            &&& s.same(expression(s.here, behind), expression(s.there, s.across(behind)))
        }),
    ensures
        s.same(fn_arg(s.here, c), fn_arg(s.there, s.across(c))),
{
}

proof fn lemma_positional_arg(s: Stretch, c: Cursor)
    requires
        s.fits(),
        maybe_name(s.here, c) is Some ==> !(peek_second(s.here, c) matches Some(
            (_, Tok::Colon, _),
        )),
        finds(s.here, c, expression(s.here, c)),
        s.same(expression(s.here, c), expression(s.there, s.across(c))),
    ensures
        s.same(fn_arg(s.here, c), fn_arg(s.there, s.across(c))),
{
    if maybe_name(s.here, c) is Some {
        lemma_a_name_is_an_expression(s.here, c);
    }
}

proof fn lemma_a_name_is_an_expression(t: Toks, c: Cursor)
    requires
        maybe_name(t, c) is Some,
    ensures
        !nothing(expression(t, c)),
{
    expr_chain_is_found(t, c, Seq::empty(), Seq::empty());
    assert(!nothing(expr_head(t, c)));
    assert(!nothing(expr_unit(t, c)));
    let unit = expr_unit(t, c);
    if let Ok(Some(value)) = unit.res {
        if let Some((start, tok, end)) = peek(t, unit.to) {
            if let Some(p) = expr_precedence(tok) {
                expr_unit_is_found(t, c);
                expr_chain_is_found(
                    t,
                    next(t, unit.to),
                    Seq::empty().push(value),
                    Seq::empty().push(((start, tok, end), p)),
                );
            }
        }
    }
    assert(!nothing(expr_chain(t, c, Seq::empty(), Seq::empty())));
}

proof fn lemma_expressions(s: Stretch, c: Cursor)
    requires
        s.fits(),
        c.at <= s.here.len(),
    ensures
        s.same(expressions(s.here, c), expressions(s.there, s.across(c))),
    decreases ahead(s.here, c), 5nat,
{
    let t = s.here;
    let p = expression_from(t, c);
    let q = expression_from(s.there, s.across(c));
    assert forall|d: Cursor| c.at <= d.at <= t.len() implies advances(t, d, #[trigger] p(d))
        && s.same(p(d), q(s.across(d))) by {
        expression_is_found(t, d);
        expressions_are_the_same_elsewhere(s, d);
    }
    series_elsewhere(s, p, q, Some(Tok::Comma), Seq::empty(), c);
}

proof fn lemma_expr_segment(s: Stretch, c: Cursor)
    requires
        s.fits(),
        c.at <= s.here.len(),
    ensures
        s.same(expr_segment(s.here, c), expr_segment(s.there, s.across(c))),
    decreases ahead(s.here, c), 6nat,
{
    let (t, u) = (s.here, s.there);
    expr_unit_is_found(t, c);
    units_are_the_same_elsewhere(s, c);
    let arg = expect_expression_from(t, c);
    let other = expect_expression_from(u, s.across(c));
    assert forall|d: Cursor| c.at <= d.at <= t.len() implies moves(t, d, #[trigger] arg(d))
        && s.same(arg(d), other(s.across(d))) by {
        expression_is_found(t, d);
        expressions_are_the_same_elsewhere(s, d);
        lemma_expect_expression(s, d);
    }
    segments_are_the_same_elsewhere(
        s,
        (expr_unit(t, c), expr_unit(u, s.across(c))),
        (arg, other),
        expr_number(),
        location_in::<UntypedExpr>(),
        c,
    );
}

proof fn lemma_expect_expression(s: Stretch, c: Cursor)
    requires
        s.fits(),
        finds(s.here, c, expression(s.here, c)),
        s.same(expression(s.here, c), expression(s.there, s.across(c))),
    ensures
        moves(s.here, c, expect_expression(s.here, c)),
        s.same(expect_expression(s.here, c), expect_expression(s.there, s.across(c))),
{
}

/// Where the same tokens stand elsewhere, the same sequence of expressions is found.
#[verifier::rlimit(40)]
pub proof fn sequences_are_the_same_elsewhere(s: Stretch, c: Cursor)
    requires
        s.fits(),
        c.at <= s.here.len(),
    ensures
        s.same(expression_seq(s.here, c), expression_seq(s.there, s.across(c))),
    decreases ahead(s.here, c), 4nat,
{
    let t = s.here;
    expression_seq_is_found(t, c);
    match binding_start(t, c) {
        Some((start, kind)) => {
            lemma_binding(s, next(t, c), start, kind);
        },
        None => {
            expression_is_found(t, c);
            expressions_are_the_same_elsewhere(s, c);
            let first = expression(t, c);
            if let Ok(Some(expr)) = first.res {
                seq_rest_moves(t, first.to, expr);
                lemma_seq_rest(s, first.to, expr);
            }
        },
    }
}

proof fn lemma_seq_rest(s: Stretch, c: Cursor, expr: ExprView)
    requires
        s.fits(),
        c.at <= s.here.len(),
    ensures
        s.same(seq_rest(s.here, c, expr), seq_rest(s.there, s.across(c), expr)),
    decreases ahead(s.here, c), 5nat,
{
    let t = s.here;
    seq_rest_moves(t, c, expr);
    expression_seq_is_found(t, c);
    sequences_are_the_same_elsewhere(s, c);
    let more = expression_seq(t, c);
    if let Ok(Some((follower, _))) = more.res {
        let longer = ExprView::Sequence { first: Box::new(expr), then: Box::new(follower) };
        seq_rest_moves(t, more.to, longer);
        lemma_seq_rest(s, more.to, longer);
    }
}

proof fn lemma_binding(s: Stretch, c: Cursor, start: usize, kind: BindingKind)
    requires
        s.fits(),
        c.at <= s.here.len(),
    ensures
        s.same(binding(s.here, c, start, kind), binding(s.there, s.across(c), start, kind)),
    decreases ahead(s.here, c), 6nat,
{
    let t = s.here;
    binding_moves(t, c, start, kind);
    pattern_is_found(t, c);
    patterns_are_the_same_elsewhere(s, c);
    let pat = pattern(t, c);
    if let Ok(Some(target)) = pat.res {
        type_annotation_is_found(t, pat.to, Tok::Colon, false);
        annotations_are_the_same_elsewhere(s, pat.to, Tok::Colon, false);
        let typ = type_annotation(t, pat.to, Tok::Colon, false);
        if let Ok(annotation) = typ.res {
            let equal = expect_one(t, typ.to, Tok::Equal);
            if let Ok(offsets) = equal.res {
                let head = (start, kind, target, annotation);
                bound_value_moves(t, equal.to, head, offsets);
                lemma_bound_value(s, equal.to, head, offsets);
            }
        }
    }
}

proof fn lemma_bound_value(
    s: Stretch,
    c: Cursor,
    head: (usize, BindingKind, PatternView, Option<TypeView>),
    equal: (usize, usize),
)
    requires
        s.fits(),
        c.at <= s.here.len(),
    ensures
        s.same(bound_value(s.here, c, head, equal), bound_value(s.there, s.across(c), head, equal)),
    decreases ahead(s.here, c), 5nat,
{
    let t = s.here;
    bound_value_moves(t, c, head, equal);
    expression_is_found(t, c);
    expressions_are_the_same_elsewhere(s, c);
    let first = expression(t, c);
    expression_seq_is_found(t, first.to);
    sequences_are_the_same_elsewhere(s, first.to);
}

/// Where the same tokens stand elsewhere, the same clause of a case expression is found.
pub proof fn clauses_are_the_same_elsewhere(s: Stretch, c: Cursor)
    requires
        s.fits(),
        c.at <= s.here.len(),
    ensures
        s.same(case_clause(s.here, c), case_clause(s.there, s.across(c))),
    decreases ahead(s.here, c), 4nat,
{
    let (t, u) = (s.here, s.there);
    let d = s.across(c);
    patterns_move(t, c);
    lists_of_patterns_are_the_same_elsewhere(s, c);
    let pats = patterns(t, c);
    alternatives_move(t, pats.to, Seq::empty());
    lemma_alternatives(s, pats.to, Seq::empty());
    let others = alternatives(t, pats.to, Seq::empty());
    guard_is_found(t, others.to, false);
    guards_are_the_same_elsewhere(s, others.to, false);
    let condition = guard(t, others.to, false);
    let arrow = expect_one(t, condition.to, Tok::RArrow);
    expression_is_found(t, arrow.to);
    expressions_are_the_same_elsewhere(s, arrow.to);
    let bodies = (expression_from(t, c), expression_from(u, d));
    assert(s.same((bodies.0)(arrow.to), (bodies.1)(s.across(arrow.to))));
    lemma_clause_with(
        s,
        c,
        (pats, patterns(u, d)),
        (alternatives_in(t), alternatives_in(u)),
        (guards_in(t), guards_in(u)),
        bodies,
    );
    lemma_clause_is(t, c);
    lemma_clause_is(u, d);
}

/// The alternative patterns of a clause, at a place of a stream.
spec fn alternatives_in(t: Toks) -> spec_fn(Cursor) -> Step<Seq<Seq<PatternView>>> {
    |d: Cursor| alternatives(t, d, Seq::empty())
}

/// The guard of a clause, at a place of a stream.
spec fn guards_in(t: Toks) -> spec_fn(Cursor) -> Step<Option<GuardView>> {
    |d: Cursor| guard(t, d, false)
}

/// A clause with the patterns that were found, and ways to look for the alternatives to them, for
/// its guard and for its body.
spec fn clause_with(
    t: Toks,
    pats: Step<Seq<PatternView>>,
    alternatives_at: spec_fn(Cursor) -> Step<Seq<Seq<PatternView>>>,
    guard_at: spec_fn(Cursor) -> Step<Option<GuardView>>,
    body_at: spec_fn(Cursor) -> Step<Option<ExprView>>,
) -> Step<Option<ClauseView>> {
    match pats.res {
        Err(error) => failed(error, pats.to),
        Ok(pattern) => if pattern.len() == 0 {
            found(None, pats.to)
        } else {
            let others = alternatives_at(pats.to);
            match others.res {
                Err(error) => failed(error, others.to),
                Ok(alternative_patterns) => {
                    let condition = guard_at(others.to);
                    match condition.res {
                        Err(error) => failed(error, condition.to),
                        Ok(guard) => {
                            let arrow = expect_one(t, condition.to, Tok::RArrow);
                            match arrow.res {
                                Err(error) => failed(error, arrow.to),
                                Ok((arrow_start, arrow_end)) => {
                                    let body = body_at(arrow.to);
                                    match body.res {
                                        Err(error) => failed(error, body.to),
                                        Ok(None) => error_at(
                                            ParseErrorType::ExpectedExpr,
                                            span(arrow_start, arrow_end),
                                            body.to,
                                        ),
                                        Ok(Some(then)) => found(
                                            Some(
                                                ClauseView {
                                                    location: span(
                                                        pattern[0].location().start,
                                                        then.location().end,
                                                    ),
                                                    pattern,
                                                    alternative_patterns,
                                                    guard,
                                                    then,
                                                },
                                            ),
                                            body.to,
                                        ),
                                    }
                                },
                            }
                        },
                    }
                },
            }
        },
    }
}

proof fn lemma_clause_is(t: Toks, c: Cursor)
    ensures
        case_clause(t, c) == clause_with(
            t,
            patterns(t, c),
            alternatives_in(t),
            guards_in(t),
            expression_from(t, c),
        ),
{
}

proof fn lemma_clause_with(
    s: Stretch,
    c: Cursor,
    pats: (Step<Seq<PatternView>>, Step<Seq<PatternView>>),
    others: (
        spec_fn(Cursor) -> Step<Seq<Seq<PatternView>>>,
        spec_fn(Cursor) -> Step<Seq<Seq<PatternView>>>,
    ),
    conditions: (
        spec_fn(Cursor) -> Step<Option<GuardView>>,
        spec_fn(Cursor) -> Step<Option<GuardView>>,
    ),
    bodies: (spec_fn(Cursor) -> Step<Option<ExprView>>, spec_fn(Cursor) -> Step<Option<ExprView>>),
)
    requires
        s.fits(),
        moves(s.here, c, pats.0),
        s.same(pats.0, pats.1),
        ({
            let first = pats.0.to;
            let second = (others.0)(first).to;
            let third = (conditions.0)(second).to;
            let fourth = expect_one(s.here, third, Tok::RArrow).to;
            &&& moves(s.here, first, (others.0)(first))
            &&& s.same((others.0)(first), (others.1)(s.across(first)))
            &&& moves(s.here, second, (conditions.0)(second))
            &&& s.same((conditions.0)(second), (conditions.1)(s.across(second)))
            &&& moves(s.here, fourth, (bodies.0)(fourth))
            &&& s.same((bodies.0)(fourth), (bodies.1)(s.across(fourth)))
        }),
    ensures
        s.same(
            clause_with(s.here, pats.0, others.0, conditions.0, bodies.0),
            clause_with(s.there, pats.1, others.1, conditions.1, bodies.1),
        ),
{
}

proof fn lemma_alternatives(s: Stretch, c: Cursor, before: Seq<Seq<PatternView>>)
    requires
        s.fits(),
        c.at <= s.here.len(),
    ensures
        s.same(alternatives(s.here, c, before), alternatives(s.there, s.across(c), before)),
    decreases ahead(s.here, c),
{
    let t = s.here;
    alternatives_move(t, c, before);
    if one(t, c, Tok::Vbar) is Some {
        patterns_move(t, next(t, c));
        lists_of_patterns_are_the_same_elsewhere(s, next(t, c));
        let pats = patterns(t, next(t, c));
        if let Ok(alternative) = pats.res {
            alternatives_move(t, pats.to, before.push(alternative));
            lemma_alternatives(s, pats.to, before.push(alternative));
        }
    }
}

/// Where the same tokens stand elsewhere, the same function is found.
pub proof fn functions_are_the_same_elsewhere(
    s: Stretch,
    c: Cursor,
    start: usize,
    public: bool,
    is_anon: bool,
)
    requires
        s.fits(),
        c.at <= s.here.len(),
    ensures
        s.same(
            function(s.here, c, start, public, is_anon),
            function(s.there, s.across(c), start, public, is_anon),
        ),
    decreases ahead(s.here, c), 7nat,
{
    let (t, u) = (s.here, s.there);
    let d = s.across(c);
    let named = name_of(t, c, is_anon);
    fn_head_moves(t, named.to);
    lemma_fn_head(s, named.to);
    let head = fn_head(t, named.to);
    let bodies = (body_from(t, c), body_from(u, d));
    if head.res is Ok {
        expression_seq_is_found(t, head.to);
        sequences_are_the_same_elsewhere(s, head.to);
        assert((bodies.0)(head.to) == expression_seq(t, head.to));
        assert(s.same((bodies.0)(head.to), (bodies.1)(s.across(head.to))));
    }
    assert(s.same(named, name_of(u, d, is_anon)));
    lemma_function_with(
        s,
        c,
        (named, name_of(u, d, is_anon)),
        (heads_in(t), heads_in(u)),
        bodies,
        (start, public, is_anon),
    );
    lemma_function_is(t, c, start, public, is_anon);
    lemma_function_is(u, d, start, public, is_anon);
}

/// The name of a function, which an anonymous one does not have.
spec fn name_of(t: Toks, c: Cursor, is_anon: bool) -> Step<Text> {
    if is_anon {
        found(Seq::empty(), c)
    } else {
        let step = expect_name(t, c);
        match step.res {
            Err(error) => failed(error, step.to),
            Ok((_, name, _)) => found(name, step.to),
        }
    }
}

/// The head of a function, at a place of a stream.
spec fn heads_in(t: Toks) -> spec_fn(Cursor) -> Step<(Seq<ArgView>, usize, Option<TypeView>)> {
    |d: Cursor| fn_head(t, d)
}

/// The body of a function at a place behind `c`.
spec fn body_from(t: Toks, c: Cursor) -> spec_fn(Cursor) -> Step<Option<(ExprView, usize)>> {
    |d: Cursor| expression_seq(t, from(t, c, d))
}

/// A function with the name that was found, and ways to look for its head and its body.
spec fn function_with(
    t: Toks,
    named: Step<Text>,
    head_at: spec_fn(Cursor) -> Step<(Seq<ArgView>, usize, Option<TypeView>)>,
    body_at: spec_fn(Cursor) -> Step<Option<(ExprView, usize)>>,
    kind: (usize, bool, bool),
) -> Step<Option<StatementView>> {
    match named.res {
        Err(error) => failed(error, named.to),
        Ok(name) => {
            let head = head_at(named.to);
            match head.res {
                Err(error) => failed(error, head.to),
                Ok((args, rpar_end, return_annotation)) => {
                    let inner = body_at(head.to);
                    match inner.res {
                        Err(error) => failed(error, inner.to),
                        Ok(None) => unexpected(t, inner.to, seq!["The body of a function"@]),
                        Ok(Some((body, _))) => {
                            let rbrace = expect_one(t, inner.to, Tok::Rbrace);
                            match rbrace.res {
                                Err(error) => failed(error, rbrace.to),
                                Ok((_, rbrace_end)) => found(
                                    Some(
                                        StatementView::Fn {
                                            location: span(
                                                kind.0,
                                                match return_annotation {
                                                    Some(typ) => typ.location().end,
                                                    None => if kind.2 {
                                                        rbrace_end
                                                    } else {
                                                        rpar_end
                                                    },
                                                },
                                            ),
                                            end_location: (rbrace_end - 1) as usize,
                                            name,
                                            args,
                                            body,
                                            public: kind.1,
                                            return_annotation,
                                            doc: None,
                                        },
                                    ),
                                    rbrace.to,
                                ),
                            }
                        },
                    }
                },
            }
        },
    }
}

proof fn lemma_function_is(t: Toks, c: Cursor, start: usize, public: bool, is_anon: bool)
    ensures
        function(t, c, start, public, is_anon) == function_with(
            t,
            name_of(t, c, is_anon),
            heads_in(t),
            body_from(t, c),
            (start, public, is_anon),
        ),
{
}

proof fn lemma_function_with(
    s: Stretch,
    c: Cursor,
    named: (Step<Text>, Step<Text>),
    heads: (
        spec_fn(Cursor) -> Step<(Seq<ArgView>, usize, Option<TypeView>)>,
        spec_fn(Cursor) -> Step<(Seq<ArgView>, usize, Option<TypeView>)>,
    ),
    bodies: (
        spec_fn(Cursor) -> Step<Option<(ExprView, usize)>>,
        spec_fn(Cursor) -> Step<Option<(ExprView, usize)>>,
    ),
    kind: (usize, bool, bool),
)
    requires
        s.fits(),
        moves(s.here, c, named.0),
        s.same(named.0, named.1),
        ({
            let head = (heads.0)(named.0.to);
            &&& moves(s.here, named.0.to, head)
            &&& s.same(head, (heads.1)(s.across(named.0.to)))
            &&& head.res is Ok ==> moves(s.here, head.to, (bodies.0)(head.to)) && s.same(
                (bodies.0)(head.to),
                (bodies.1)(s.across(head.to)),
            )
        }),
    ensures
        s.same(
            function_with(s.here, named.0, heads.0, bodies.0, kind),
            function_with(s.there, named.1, heads.1, bodies.1, kind),
        ),
{
}

proof fn lemma_fn_head(s: Stretch, c: Cursor)
    requires
        s.fits(),
        c.at <= s.here.len(),
    ensures
        s.same(fn_head(s.here, c), fn_head(s.there, s.across(c))),
{
    let (t, u) = (s.here, s.there);
    let lpar = expect_one(t, c, Tok::Lpar);
    lemma_fn_params(s, lpar.to);
    let lists = (params_in(t), params_in(u));
    let params = (lists.0)(lpar.to);
    let rpar = expect_one(t, params.to, Tok::Rpar);
    type_annotation_is_found(t, rpar.to, Tok::RArrow, false);
    annotations_are_the_same_elsewhere(s, rpar.to, Tok::RArrow, false);
    lemma_head_with(s, c, lists, (returns_in(t), returns_in(u)));
    lemma_fn_head_is(t, c);
    lemma_fn_head_is(u, s.across(c));
}

/// The parameters of a function, at a place of a stream.
spec fn params_in(t: Toks) -> spec_fn(Cursor) -> Step<Seq<ArgView>> {
    |d: Cursor| series(fn_param_in(t), t, Some(Tok::Comma), Seq::empty(), d)
}

/// The type that a function returns, at a place of a stream.
spec fn returns_in(t: Toks) -> spec_fn(Cursor) -> Step<Option<TypeView>> {
    |d: Cursor| type_annotation(t, d, Tok::RArrow, false)
}

/// The head of a function, with ways to look for its parameters and for the type that it outputs.
spec fn head_with(
    t: Toks,
    c: Cursor,
    params_at: spec_fn(Cursor) -> Step<Seq<ArgView>>,
    returns_at: spec_fn(Cursor) -> Step<Option<TypeView>>,
) -> Step<(Seq<ArgView>, usize, Option<TypeView>)> {
    let lpar = expect_one(t, c, Tok::Lpar);
    match lpar.res {
        Err(error) => failed(error, lpar.to),
        Ok(_) => {
            let params = params_at(lpar.to);
            match params.res {
                Err(error) => failed(error, params.to),
                Ok(args) => {
                    let rpar = expect_one(t, params.to, Tok::Rpar);
                    match rpar.res {
                        Err(error) => failed(error, rpar.to),
                        Ok((_, rpar_end)) => {
                            let typ = returns_at(rpar.to);
                            match typ.res {
                                Err(error) => failed(error, typ.to),
                                Ok(return_annotation) => {
                                    let lbrace = expect_one(t, typ.to, Tok::Lbrace);
                                    match lbrace.res {
                                        Err(error) => failed(error, lbrace.to),
                                        Ok(_) => found(
                                            (args, rpar_end, return_annotation),
                                            lbrace.to,
                                        ),
                                    }
                                },
                            }
                        },
                    }
                },
            }
        },
    }
}

proof fn lemma_fn_head_is(t: Toks, c: Cursor)
    ensures
        fn_head(t, c) == head_with(t, c, params_in(t), returns_in(t)),
{
    reveal(fn_head);
}

proof fn lemma_head_with(
    s: Stretch,
    c: Cursor,
    lists: (spec_fn(Cursor) -> Step<Seq<ArgView>>, spec_fn(Cursor) -> Step<Seq<ArgView>>),
    outputs: (spec_fn(Cursor) -> Step<Option<TypeView>>, spec_fn(Cursor) -> Step<Option<TypeView>>),
)
    requires
        s.fits(),
        c.at <= s.here.len(),
        ({
            let inner = expect_one(s.here, c, Tok::Lpar).to;
            let params = (lists.0)(inner);
            let behind = expect_one(s.here, params.to, Tok::Rpar).to;
            &&& moves(s.here, inner, params)
            &&& s.same(params, (lists.1)(s.across(inner)))
            &&& moves(s.here, behind, (outputs.0)(behind))
            &&& s.same((outputs.0)(behind), (outputs.1)(s.across(behind)))
        }),
    ensures
        s.same(
            head_with(s.here, c, lists.0, outputs.0),
            head_with(s.there, s.across(c), lists.1, outputs.1),
        ),
{
}

proof fn lemma_fn_params(s: Stretch, c: Cursor)
    requires
        s.fits(),
        c.at <= s.here.len(),
    ensures
        moves(s.here, c, series(fn_param_in(s.here), s.here, Some(Tok::Comma), Seq::empty(), c)),
        s.same(
            series(fn_param_in(s.here), s.here, Some(Tok::Comma), Seq::empty(), c),
            series(fn_param_in(s.there), s.there, Some(Tok::Comma), Seq::empty(), s.across(c)),
        ),
{
    let t = s.here;
    let p = fn_param_in(t);
    let q = fn_param_in(s.there);
    assert forall|d: Cursor| c.at <= d.at <= t.len() implies advances(t, d, #[trigger] p(d))
        && s.same(p(d), q(s.across(d))) by {
        fn_param_is_found(t, d);
        lemma_fn_param(s, d);
    }
    series_moves(p, t, Some(Tok::Comma), Seq::empty(), c);
    series_elsewhere(s, p, q, Some(Tok::Comma), Seq::empty(), c);
}

proof fn lemma_fn_param(s: Stretch, c: Cursor)
    requires
        s.fits(),
        c.at <= s.here.len(),
    ensures
        s.same(fn_param(s.here, c), fn_param(s.there, s.across(c))),
{
    let t = s.here;
    fn_param_is_found(t, c);
    if let Some((_, _, _, to)) = param_names(t, c) {
        type_annotation_is_found(t, to, Tok::Colon, false);
        annotations_are_the_same_elsewhere(s, to, Tok::Colon, false);
    }
}

} // verus!
