//! How far looking for expressions gets.

use crate::ast::{BindingKind, UntypedExpr};
use crate::grammar::basics::{expect_name, expect_one, maybe_name, nothing, one, series, span};
use crate::grammar::exprs::{
    alternatives, binding, binding_start, bit_string_expr, block_expr, bound_value, call_or_update,
    case_clause, case_clause_from, case_expr, expect_expression, expect_expression_from, expr_chain,
    expr_head, expr_number, expr_segment, expr_segment_from, expr_unit, expression, expression_from,
    expression_seq, expressions, field_access, fn_arg, fn_arg_from, fn_args, fn_expr, fn_head,
    fn_param, fn_param_in, function, list_expr, new_values, param_names, record_update, seq_rest,
    tuple_expr, unit_tail, update_arg, update_arg_from,
};
use crate::grammar::guards::guard;
use crate::grammar::patterns::{pattern, pattern_from, patterns};
use crate::grammar::types::type_annotation;
use crate::laws::places::{advances, finds, moves, series_moves, series_only_grows};
use crate::laws::places::guards::guard_is_found;
use crate::laws::places::patterns::{pattern_is_found, patterns_move};
use crate::laws::places::segments::segment_is_found;
use crate::laws::places::types::type_annotation_is_found;
use crate::location::location_in;
use crate::model::{ExprView, PatternView, SpreadView, TypeView};
use crate::operator::expr_precedence;
use crate::precedence::Op;
use crate::stream::{after, ahead, next, peek, peek_second, Cursor, Toks};
use crate::token::Tok;
use vstd::prelude::*;

verus! {

/// Looking for an expression gets ahead if it finds one, stays where it is if not, and never goes
/// back nor beyond the last token.
pub proof fn expression_is_found(t: Toks, c: Cursor)
    requires
        c.at <= t.len(),
    ensures
        finds(t, c, expression(t, c)),
    decreases ahead(t, c), 3nat,
{
    expr_chain_is_found(t, c, Seq::empty(), Seq::empty());
}

pub(crate) proof fn expr_chain_is_found(t: Toks, c: Cursor, units: Seq<ExprView>, ops: Seq<Op>)
    requires
        c.at <= t.len(),
    ensures
        finds(t, c, expr_chain(t, c, units, ops)),
        units.len() > 0 ==> !nothing(expr_chain(t, c, units, ops)),
    decreases ahead(t, c), 2nat,
{
    expr_unit_is_found(t, c);
    let unit = expr_unit(t, c);
    if let Ok(Some(value)) = unit.res {
        if let Some((start, tok, end)) = peek(t, unit.to) {
            if let Some(p) = expr_precedence(tok) {
                expr_chain_is_found(
                    t,
                    next(t, unit.to),
                    units.push(value),
                    ops.push(((start, tok, end), p)),
                );
            }
        }
    }
}

/// Looking for a unit gets ahead if it finds one, stays where it is if not, and never goes back nor
/// beyond the last token.
pub proof fn expr_unit_is_found(t: Toks, c: Cursor)
    requires
        c.at <= t.len(),
    ensures
        finds(t, c, expr_unit(t, c)),
    decreases ahead(t, c), 1nat,
{
    expr_head_is_found(t, c);
    let head = expr_head(t, c);
    if let Ok(Some(expr)) = head.res {
        unit_tail_moves(t, head.to, expr);
    }
}

pub(crate) proof fn expr_head_is_found(t: Toks, c: Cursor)
    requires
        c.at <= t.len(),
    ensures
        finds(t, c, expr_head(t, c)),
    decreases ahead(t, c), 0nat,
{
    let to = next(t, c);
    match peek(t, c) {
        Some((start, Tok::Tuple, _)) => {
            tuple_expr_moves(t, to, start);
        },
        Some((start, Tok::Lsqb, _)) => {
            list_expr_moves(t, to, start);
        },
        Some((start, Tok::LtLt, _)) => {
            bit_string_expr_moves(t, to, start);
        },
        Some((start, Tok::Fn, _)) => {
            fn_expr_moves(t, to, start);
        },
        Some((start, Tok::Lbrace, _)) => {
            block_expr_moves(t, to, start);
        },
        Some((start, Tok::Case, end)) => {
            case_expr_moves(t, to, start, end);
        },
        _ => {},
    }
}

pub(crate) proof fn tuple_expr_moves(t: Toks, c: Cursor, start: usize)
    requires
        c.at <= t.len(),
    ensures
        moves(t, c, tuple_expr(t, c, start)),
    decreases ahead(t, c), 8nat,
{
    expressions_move(t, expect_one(t, c, Tok::Lpar).to);
}

pub(crate) proof fn list_expr_moves(t: Toks, c: Cursor, start: usize)
    requires
        c.at <= t.len(),
    ensures
        moves(t, c, list_expr(t, c, start)),
    decreases ahead(t, c), 8nat,
{
    expressions_move(t, c);
    expression_is_found(t, next(t, expressions(t, c).to));
}

pub(crate) proof fn bit_string_expr_moves(t: Toks, c: Cursor, start: usize)
    requires
        c.at <= t.len(),
    ensures
        moves(t, c, bit_string_expr(t, c, start)),
    decreases ahead(t, c), 8nat,
{
    let p = expr_segment_from(t, c);
    assert forall|d: Cursor| c.at <= d.at <= t.len() implies advances(t, d, #[trigger] p(d)) by {
        expr_segment_is_found(t, d);
    }
    series_moves(p, t, Some(Tok::Comma), Seq::empty(), c);
}

pub(crate) proof fn fn_expr_moves(t: Toks, c: Cursor, start: usize)
    requires
        c.at <= t.len(),
    ensures
        moves(t, c, fn_expr(t, c, start)),
    decreases ahead(t, c), 8nat,
{
    function_is_found(t, c, start, false, true);
}

pub(crate) proof fn block_expr_moves(t: Toks, c: Cursor, start: usize)
    requires
        c.at <= t.len(),
    ensures
        moves(t, c, block_expr(t, c, start)),
    decreases ahead(t, c), 8nat,
{
    expression_seq_is_found(t, c);
}

pub(crate) proof fn case_expr_moves(t: Toks, c: Cursor, start: usize, case_end: usize)
    requires
        c.at <= t.len(),
    ensures
        moves(t, c, case_expr(t, c, start, case_end)),
    decreases ahead(t, c), 8nat,
{
    expressions_move(t, c);
    let inner = expect_one(t, expressions(t, c).to, Tok::Lbrace).to;
    let p = case_clause_from(t, inner);
    assert forall|d: Cursor| inner.at <= d.at <= t.len() implies advances(
        t,
        d,
        #[trigger] p(d),
    ) by {
        case_clause_is_found(t, d);
    }
    series_moves(p, t, None, Seq::empty(), inner);
}

pub(crate) proof fn unit_tail_moves(t: Toks, c: Cursor, expr: ExprView)
    requires
        c.at <= t.len(),
    ensures
        moves(t, c, unit_tail(t, c, expr)),
    decreases ahead(t, c), 0nat,
{
    let to = next(t, c);
    if one(t, c, Tok::Dot) is Some {
        let field = field_access(t, to, expr);
        if let Ok(longer) = field.res {
            unit_tail_moves(t, field.to, longer);
        }
    } else if one(t, c, Tok::Lpar) is Some {
        call_or_update_moves(t, to, expr);
        let made = call_or_update(t, to, expr);
        if let Ok(longer) = made.res {
            unit_tail_moves(t, made.to, longer);
        }
    }
}

pub(crate) proof fn call_or_update_moves(t: Toks, c: Cursor, expr: ExprView)
    requires
        c.at <= t.len(),
    ensures
        moves(t, c, call_or_update(t, c, expr)),
    decreases ahead(t, c), 8nat,
{
    match (peek(t, c), peek_second(t, c)) {
        (Some((dot_start, Tok::DotDot, _)), _) => {
            record_update_moves(t, next(t, c), expr, dot_start);
        },
        (Some((name_start, Tok::Name { name }, _)), Some((_, Tok::DotDot, dot_end))) => {
            let spread = SpreadView { name: name@, location: span(name_start, dot_end) };
            new_values_move(t, next(t, next(t, c)), expr, spread);
        },
        _ => {
            fn_args_move(t, c);
        },
    }
}

pub(crate) proof fn record_update_moves(t: Toks, c: Cursor, expr: ExprView, dot_start: usize)
    requires
        c.at <= t.len(),
    ensures
        moves(t, c, record_update(t, c, expr, dot_start)),
    decreases ahead(t, c), 8nat,
{
    let record = expect_name(t, c);
    if let Ok((_, name, name_end)) = record.res {
        let spread = SpreadView { name, location: span(dot_start, name_end) };
        new_values_move(t, record.to, expr, spread);
    }
}

pub(crate) proof fn new_values_move(t: Toks, c: Cursor, expr: ExprView, spread: SpreadView)
    requires
        c.at <= t.len(),
    ensures
        moves(t, c, new_values(t, c, expr, spread)),
    decreases ahead(t, c), 8nat,
{
    let inner = next(t, c);
    let p = update_arg_from(t, inner);
    assert forall|d: Cursor| inner.at <= d.at <= t.len() implies advances(
        t,
        d,
        #[trigger] p(d),
    ) by {
        update_arg_is_found(t, d);
    }
    series_moves(p, t, Some(Tok::Comma), Seq::empty(), inner);
}

/// Looking for a new value for a field of a record gets ahead if it finds one, stays where it is if
/// not, and never goes back nor beyond the last token.
pub proof fn update_arg_is_found(t: Toks, c: Cursor)
    requires
        c.at <= t.len(),
    ensures
        finds(t, c, update_arg(t, c)),
    decreases ahead(t, c), 4nat,
{
    if maybe_name(t, c) is Some {
        expression_is_found(t, expect_one(t, next(t, c), Tok::Colon).to);
    }
}

pub(crate) proof fn fn_args_move(t: Toks, c: Cursor)
    requires
        c.at <= t.len(),
    ensures
        moves(t, c, fn_args(t, c)),
    decreases ahead(t, c), 6nat,
{
    let p = fn_arg_from(t, c);
    assert forall|d: Cursor| c.at <= d.at <= t.len() implies advances(t, d, #[trigger] p(d)) by {
        fn_arg_is_found(t, d);
    }
    series_moves(p, t, Some(Tok::Comma), Seq::empty(), c);
}

/// Looking for an argument of a call gets ahead if it finds one, and never goes back nor beyond the
/// last token. Without a value, a label and its colon are read even so.
pub proof fn fn_arg_is_found(t: Toks, c: Cursor)
    requires
        c.at <= t.len(),
    ensures
        advances(t, c, fn_arg(t, c)),
        nothing(fn_arg(t, c)) && maybe_name(t, c) is None ==> fn_arg(t, c).to == c,
    decreases ahead(t, c), 4nat,
{
    match (peek(t, c), peek_second(t, c)) {
        (Some((_, Tok::Name { .. }, _)), Some((_, Tok::Colon, _))) => {
            expression_is_found(t, next(t, next(t, c)));
        },
        _ => {
            expression_is_found(t, c);
        },
    }
}

pub(crate) proof fn expressions_move(t: Toks, c: Cursor)
    requires
        c.at <= t.len(),
    ensures
        moves(t, c, expressions(t, c)),
    decreases ahead(t, c), 5nat,
{
    let p = expression_from(t, c);
    assert forall|d: Cursor| c.at <= d.at <= t.len() implies advances(t, d, #[trigger] p(d)) by {
        expression_is_found(t, d);
    }
    series_moves(p, t, Some(Tok::Comma), Seq::empty(), c);
}

/// Looking for a segment of a bit string gets ahead if it finds one, stays where it is if not, and
/// never goes back nor beyond the last token.
pub proof fn expr_segment_is_found(t: Toks, c: Cursor)
    requires
        c.at <= t.len(),
    ensures
        finds(t, c, expr_segment(t, c)),
    decreases ahead(t, c), 6nat,
{
    expr_unit_is_found(t, c);
    let arg = expect_expression_from(t, c);
    assert forall|d: Cursor| c.at <= d.at <= t.len() implies moves(t, d, #[trigger] arg(d)) by {
        expression_is_found(t, d);
        assert(moves(t, d, expect_expression(t, d)));
    }
    segment_is_found(expr_unit(t, c), arg, expr_number(), location_in::<UntypedExpr>(), t, c);
}

/// Looking for a sequence of expressions gets ahead if it finds one, stays where it is if not, and
/// never goes back nor beyond the last token.
pub proof fn expression_seq_is_found(t: Toks, c: Cursor)
    requires
        c.at <= t.len(),
    ensures
        finds(t, c, expression_seq(t, c)),
    decreases ahead(t, c), 4nat,
{
    match binding_start(t, c) {
        Some((start, kind)) => {
            binding_moves(t, next(t, c), start, kind);
        },
        None => {
            expression_is_found(t, c);
            let first = expression(t, c);
            if let Ok(Some(expr)) = first.res {
                seq_rest_moves(t, first.to, expr);
            }
        },
    }
}

pub(crate) proof fn seq_rest_moves(t: Toks, c: Cursor, expr: ExprView)
    requires
        c.at <= t.len(),
    ensures
        moves(t, c, seq_rest(t, c, expr)),
    decreases ahead(t, c), 5nat,
{
    expression_seq_is_found(t, c);
    let more = expression_seq(t, c);
    if let Ok(Some((follower, _))) = more.res {
        seq_rest_moves(
            t,
            more.to,
            ExprView::Sequence { first: Box::new(expr), then: Box::new(follower) },
        );
    }
}

pub(crate) proof fn binding_moves(t: Toks, c: Cursor, start: usize, kind: BindingKind)
    requires
        c.at <= t.len(),
    ensures
        moves(t, c, binding(t, c, start, kind)),
    decreases ahead(t, c), 6nat,
{
    pattern_is_found(t, c);
    let pat = pattern(t, c);
    if let Ok(Some(target)) = pat.res {
        type_annotation_is_found(t, pat.to, Tok::Colon, false);
        let typ = type_annotation(t, pat.to, Tok::Colon, false);
        if let Ok(annotation) = typ.res {
            let equal = expect_one(t, typ.to, Tok::Equal);
            if let Ok(offsets) = equal.res {
                bound_value_moves(t, equal.to, (start, kind, target, annotation), offsets);
            }
        }
    }
}

pub(crate) proof fn bound_value_moves(
    t: Toks,
    c: Cursor,
    head: (usize, BindingKind, PatternView, Option<TypeView>),
    equal: (usize, usize),
)
    requires
        c.at <= t.len(),
    ensures
        moves(t, c, bound_value(t, c, head, equal)),
    decreases ahead(t, c), 5nat,
{
    expression_is_found(t, c);
    expression_seq_is_found(t, expression(t, c).to);
}

/// Looking for a clause of a case expression gets ahead if it finds one, stays where it is if not,
/// and never goes back nor beyond the last token.
pub proof fn case_clause_is_found(t: Toks, c: Cursor)
    requires
        c.at <= t.len(),
    ensures
        finds(t, c, case_clause(t, c)),
    decreases ahead(t, c), 4nat,
{
    no_patterns_nothing_read(t, c);
    patterns_move(t, c);
    let pats = patterns(t, c);
    alternatives_move(t, pats.to, Seq::empty());
    let others = alternatives(t, pats.to, Seq::empty());
    guard_is_found(t, others.to, false);
    let condition = guard(t, others.to, false);
    let arrow = expect_one(t, condition.to, Tok::RArrow);
    expression_is_found(t, arrow.to);
}

proof fn no_patterns_nothing_read(t: Toks, c: Cursor)
    requires
        c.at <= t.len(),
    ensures
        patterns(t, c).res matches Ok(found) ==> found.len() == 0 ==> patterns(t, c).to == c,
{
    pattern_is_found(t, c);
    let p = pattern_from(t, c);
    let item = p(c);
    assert(item == pattern(t, c));
    if let Ok(Some(value)) = item.res {
        let first = Seq::<PatternView>::empty().push(value);
        series_only_grows(p, t, Some(Tok::Comma), first, after(t, c, next(t, item.to)));
    }
}

pub(crate) proof fn alternatives_move(t: Toks, c: Cursor, before: Seq<Seq<PatternView>>)
    requires
        c.at <= t.len(),
    ensures
        moves(t, c, alternatives(t, c, before)),
    decreases ahead(t, c),
{
    if one(t, c, Tok::Vbar) is Some {
        patterns_move(t, next(t, c));
        let pats = patterns(t, next(t, c));
        if let Ok(alternative) = pats.res {
            alternatives_move(t, pats.to, before.push(alternative));
        }
    }
}

/// Looking for the rest of a function gets ahead if it finds one, and never goes back nor beyond
/// the last token.
pub proof fn function_is_found(t: Toks, c: Cursor, start: usize, public: bool, is_anon: bool)
    requires
        c.at <= t.len(),
    ensures
        advances(t, c, function(t, c, start, public, is_anon)),
        !nothing(function(t, c, start, public, is_anon)),
    decreases ahead(t, c), 7nat,
{
    let named = if is_anon {
        c
    } else {
        expect_name(t, c).to
    };
    fn_head_moves(t, named);
    let head = fn_head(t, named);
    expression_seq_is_found(t, head.to);
}

pub(crate) proof fn fn_head_moves(t: Toks, c: Cursor)
    requires
        c.at <= t.len(),
    ensures
        moves(t, c, fn_head(t, c)),
        fn_head(t, c).res is Ok ==> c.at < fn_head(t, c).to.at,
{
    reveal(fn_head);
    let p = fn_param_in(t);
    assert forall|d: Cursor| c.at <= d.at <= t.len() implies advances(t, d, #[trigger] p(d)) by {
        fn_param_is_found(t, d);
    }
    let lpar = expect_one(t, c, Tok::Lpar);
    series_moves(p, t, Some(Tok::Comma), Seq::empty(), lpar.to);
    let params = series(p, t, Some(Tok::Comma), Seq::empty(), lpar.to);
    let rpar = expect_one(t, params.to, Tok::Rpar);
    type_annotation_is_found(t, rpar.to, Tok::RArrow, false);
}

/// Looking for a parameter of a function gets ahead if it finds one, stays where it is if not, and
/// never goes back nor beyond the last token.
pub proof fn fn_param_is_found(t: Toks, c: Cursor)
    requires
        c.at <= t.len(),
    ensures
        finds(t, c, fn_param(t, c)),
{
    if let Some((_, _, _, to)) = param_names(t, c) {
        type_annotation_is_found(t, to, Tok::Colon, false);
    }
}

} // verus!
