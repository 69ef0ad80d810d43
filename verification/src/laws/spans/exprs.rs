//! Where expressions and the errors in them are located.

use crate::ast::{BindingKind, UntypedExpr};
use crate::grammar::basics::{expect_name, expect_one, maybe_name, one, series, span, Step};
use crate::grammar::exprs::{
    alternatives, binding, binding_start, bit_string_expr, block_expr, bound_value, call_or_update,
    case_clause, case_clause_from, case_expr, expect_expression, expect_expression_from, expr_chain,
    expr_head, expr_number, expr_segment, expr_segment_from, expr_unit, expression, expression_from,
    expression_seq, expressions, field_access, fn_arg, fn_arg_from, fn_args, fn_expr, fn_head,
    fn_param, fn_param_in, function, list_expr, new_values, param_names, record_update, seq_rest,
    tuple_expr, unit_tail, update_arg, update_arg_from,
};
use crate::grammar::guards::{guard, last_op_span};
use crate::grammar::patterns::{pattern, patterns};
use crate::grammar::types::type_annotation;
use crate::laws::operators::trees_keep_what_joining_keeps;
use crate::laws::spans::{all_fit, error_fits, errors_of_a_series, within};
use crate::laws::spans::guards::errors_in_guards_are_located;
use crate::laws::spans::patterns::{lists_of_patterns_are_located, patterns_are_located};
use crate::laws::spans::segments::errors_in_segments_are_located;
use crate::laws::spans::types::annotations_are_located;
use crate::location::location_in;
use crate::model::{ExprView, PatternView, SpreadView, StatementView, TypeView};
use crate::operator::{expr_joiner, expr_precedence};
use crate::precedence::{op_tree, Op};
use crate::stream::{after, ahead, from, next, peek, peek_second, Cursor, Toks};
use crate::token::Tok;
use vstd::prelude::*;

verus! {

/// Whether the expression that a step finds, or its error, is located within a bound.
pub open spec fn expr_fits(bound: nat, step: Step<Option<ExprView>>) -> bool {
    &&& error_fits(bound, step)
    &&& step.res matches Ok(Some(expr)) ==> within(bound, expr.location())
}

/// Whether the expression that a step has to find, or its error, is located within a bound.
pub open spec fn needed_expr_fits(bound: nat, step: Step<ExprView>) -> bool {
    &&& error_fits(bound, step)
    &&& step.res matches Ok(expr) ==> within(bound, expr.location())
}

/// Whether the sequence that a step has to find, or its error, is located within a bound.
pub open spec fn needed_seq_fits(bound: nat, step: Step<(ExprView, usize)>) -> bool {
    &&& error_fits(bound, step)
    &&& step.res matches Ok((expr, _)) ==> within(bound, expr.location())
}

/// An expression and the errors in it are located within the bound of the tokens.
pub proof fn expressions_are_located(bound: nat, t: Toks, c: Cursor)
    requires
        all_fit(bound, t),
    ensures
        expr_fits(bound, expression(t, c)),
    decreases ahead(t, c), 3nat,
{
    lemma_chain(bound, t, c, Seq::empty(), Seq::empty());
}

proof fn lemma_chain(bound: nat, t: Toks, c: Cursor, units: Seq<ExprView>, ops: Seq<Op>)
    requires
        all_fit(bound, t),
        units.len() == ops.len(),
        within(bound, last_op_span(ops)),
        forall|i: int| 0 <= i < units.len() ==> within(bound, (#[trigger] units[i]).location()),
    ensures
        expr_fits(bound, expr_chain(t, c, units, ops)),
    decreases ahead(t, c), 2nat,
{
    lemma_unit(bound, t, c);
    let unit = expr_unit(t, c);
    let to = from(t, c, unit.to);
    if let Ok(Some(value)) = unit.res {
        let longer = units.push(value);
        assert forall|i: int| 0 <= i < longer.len() implies within(
            bound,
            (#[trigger] longer[i]).location(),
        ) by {
            if i < units.len() {
                assert(longer[i] == units[i]);
            }
        }
        lemma_tree(bound, longer, ops);
        if let Some((start, tok, end)) = peek(t, to) {
            if let Some(p) = expr_precedence(tok) {
                lemma_chain(bound, t, next(t, to), longer, ops.push(((start, tok, end), p)));
            }
        }
    }
}

proof fn lemma_tree(bound: nat, units: Seq<ExprView>, ops: Seq<Op>)
    requires
        units.len() == ops.len() + 1,
        forall|i: int| 0 <= i < units.len() ==> within(bound, (#[trigger] units[i]).location()),
    ensures
        within(bound, op_tree(expr_joiner(), units, ops).location()),
{
    let holds = |expr: ExprView| within(bound, expr.location());
    let join = expr_joiner();
    assert forall|i: int| 0 <= i < units.len() implies holds(#[trigger] units[i]) by {
        assert(within(bound, units[i].location()));
    }
    trees_keep_what_joining_keeps(join, units, ops, holds);
    assert(holds(op_tree(join, units, ops)));
}

proof fn lemma_unit(bound: nat, t: Toks, c: Cursor)
    requires
        all_fit(bound, t),
    ensures
        expr_fits(bound, expr_unit(t, c)),
    decreases ahead(t, c), 1nat,
{
    lemma_head(bound, t, c);
    let head = expr_head(t, c);
    if let Ok(Some(expr)) = head.res {
        lemma_tail(bound, t, from(t, c, head.to), expr);
    }
}

proof fn lemma_head(bound: nat, t: Toks, c: Cursor)
    requires
        all_fit(bound, t),
    ensures
        expr_fits(bound, expr_head(t, c)),
    decreases ahead(t, c), 0nat,
{
    let to = next(t, c);
    match peek(t, c) {
        Some((start, Tok::Tuple, _)) => {
            lemma_tuple(bound, t, to, start);
        },
        Some((start, Tok::Lsqb, _)) => {
            lemma_list(bound, t, to, start);
        },
        Some((start, Tok::LtLt, _)) => {
            lemma_bit_string(bound, t, to, start);
        },
        Some((start, Tok::Fn, _)) => {
            lemma_fn_expr(bound, t, to, start);
        },
        Some((start, Tok::Lbrace, _)) => {
            lemma_block(bound, t, to, start);
        },
        Some((start, Tok::Case, case_end)) => {
            lemma_case(bound, t, to, start, case_end);
        },
        _ => {},
    }
}

proof fn lemma_tuple(bound: nat, t: Toks, c: Cursor, start: usize)
    requires
        all_fit(bound, t),
        start <= bound,
    ensures
        needed_expr_fits(bound, tuple_expr(t, c, start)),
    decreases ahead(t, c), 8nat,
{
    lemma_expressions(bound, t, expect_one(t, c, Tok::Lpar).to);
}

proof fn lemma_list(bound: nat, t: Toks, c: Cursor, start: usize)
    requires
        all_fit(bound, t),
        start <= bound,
    ensures
        needed_expr_fits(bound, list_expr(t, c, start)),
    decreases ahead(t, c), 8nat,
{
    lemma_expressions(bound, t, c);
    expressions_are_located(bound, t, from(t, c, next(t, expressions(t, c).to)));
}

proof fn lemma_bit_string(bound: nat, t: Toks, c: Cursor, start: usize)
    requires
        all_fit(bound, t),
        start <= bound,
    ensures
        needed_expr_fits(bound, bit_string_expr(t, c, start)),
    decreases ahead(t, c), 8nat,
{
    let p = expr_segment_from(t, c);
    assert forall|d: Cursor| error_fits(bound, #[trigger] p(d)) by {
        lemma_segment(bound, t, from(t, c, d));
    }
    errors_of_a_series(bound, p, t, Some(Tok::Comma), Seq::empty(), c);
}

proof fn lemma_segment(bound: nat, t: Toks, c: Cursor)
    requires
        all_fit(bound, t),
    ensures
        error_fits(bound, expr_segment(t, c)),
    decreases ahead(t, c), 6nat,
{
    lemma_unit(bound, t, c);
    let arg = expect_expression_from(t, c);
    assert forall|d: Cursor| error_fits(bound, #[trigger] arg(d)) by {
        expressions_are_located(bound, t, from(t, c, d));
        assert(error_fits(bound, expect_expression(t, from(t, c, d))));
    }
    errors_in_segments_are_located(
        bound,
        expr_unit(t, c),
        arg,
        expr_number(),
        location_in::<UntypedExpr>(),
        t,
    );
}

proof fn lemma_fn_expr(bound: nat, t: Toks, c: Cursor, start: usize)
    requires
        all_fit(bound, t),
        start <= bound,
    ensures
        needed_expr_fits(bound, fn_expr(t, c, start)),
    decreases ahead(t, c), 8nat,
{
    functions_are_located(bound, t, c, start, false, true);
}

proof fn lemma_block(bound: nat, t: Toks, c: Cursor, start: usize)
    requires
        all_fit(bound, t),
        start <= bound,
    ensures
        needed_expr_fits(bound, block_expr(t, c, start)),
    decreases ahead(t, c), 8nat,
{
    sequences_are_located(bound, t, c);
}

proof fn lemma_case(bound: nat, t: Toks, c: Cursor, start: usize, case_end: usize)
    requires
        all_fit(bound, t),
        start <= bound,
        case_end <= bound,
    ensures
        needed_expr_fits(bound, case_expr(t, c, start, case_end)),
    decreases ahead(t, c), 8nat,
{
    lemma_expressions(bound, t, c);
    let inner = from(t, c, expect_one(t, expressions(t, c).to, Tok::Lbrace).to);
    let p = case_clause_from(t, inner);
    assert forall|d: Cursor| error_fits(bound, #[trigger] p(d)) by {
        lemma_clause(bound, t, from(t, inner, d));
    }
    errors_of_a_series(bound, p, t, None, Seq::empty(), inner);
}

proof fn lemma_tail(bound: nat, t: Toks, c: Cursor, expr: ExprView)
    requires
        all_fit(bound, t),
        within(bound, expr.location()),
    ensures
        needed_expr_fits(bound, unit_tail(t, c, expr)),
    decreases ahead(t, c), 0nat,
{
    let to = next(t, c);
    if one(t, c, Tok::Dot) is Some {
        let field = field_access(t, to, expr);
        assert(needed_expr_fits(bound, field));
        if let Ok(longer) = field.res {
            lemma_tail(bound, t, field.to, longer);
        }
    } else if one(t, c, Tok::Lpar) is Some {
        lemma_call_or_update(bound, t, to, expr);
        let made = call_or_update(t, to, expr);
        if let Ok(longer) = made.res {
            lemma_tail(bound, t, from(t, to, made.to), longer);
        }
    }
}

proof fn lemma_call_or_update(bound: nat, t: Toks, c: Cursor, expr: ExprView)
    requires
        all_fit(bound, t),
        within(bound, expr.location()),
    ensures
        needed_expr_fits(bound, call_or_update(t, c, expr)),
    decreases ahead(t, c), 8nat,
{
    match (peek(t, c), peek_second(t, c)) {
        (Some((dot_start, Tok::DotDot, _)), _) => {
            lemma_update(bound, t, next(t, c), expr, dot_start);
        },
        (Some((name_start, Tok::Name { name }, _)), Some((_, Tok::DotDot, dot_end))) => {
            let spread = SpreadView { name: name@, location: span(name_start, dot_end) };
            lemma_new_values(bound, t, next(t, next(t, c)), expr, spread);
        },
        _ => {
            let p = fn_arg_from(t, c);
            assert forall|d: Cursor| error_fits(bound, #[trigger] p(d)) by {
                lemma_fn_arg(bound, t, from(t, c, d));
            }
            errors_of_a_series(bound, p, t, Some(Tok::Comma), Seq::empty(), c);
            assert(error_fits(bound, fn_args(t, c)));
        },
    }
}

proof fn lemma_update(bound: nat, t: Toks, c: Cursor, expr: ExprView, dot_start: usize)
    requires
        all_fit(bound, t),
        within(bound, expr.location()),
    ensures
        needed_expr_fits(bound, record_update(t, c, expr, dot_start)),
    decreases ahead(t, c), 8nat,
{
    let record = expect_name(t, c);
    if let Ok((_, name, name_end)) = record.res {
        let spread = SpreadView { name, location: span(dot_start, name_end) };
        lemma_new_values(bound, t, record.to, expr, spread);
    }
}

proof fn lemma_new_values(bound: nat, t: Toks, c: Cursor, expr: ExprView, spread: SpreadView)
    requires
        all_fit(bound, t),
        within(bound, expr.location()),
    ensures
        needed_expr_fits(bound, new_values(t, c, expr, spread)),
    decreases ahead(t, c), 8nat,
{
    let inner = next(t, c);
    let p = update_arg_from(t, inner);
    assert forall|d: Cursor| error_fits(bound, #[trigger] p(d)) by {
        lemma_update_arg(bound, t, from(t, inner, d));
    }
    errors_of_a_series(bound, p, t, Some(Tok::Comma), Seq::empty(), inner);
}

proof fn lemma_update_arg(bound: nat, t: Toks, c: Cursor)
    requires
        all_fit(bound, t),
    ensures
        error_fits(bound, update_arg(t, c)),
    decreases ahead(t, c), 4nat,
{
    if maybe_name(t, c) is Some {
        expressions_are_located(bound, t, expect_one(t, next(t, c), Tok::Colon).to);
    }
}

proof fn lemma_fn_arg(bound: nat, t: Toks, c: Cursor)
    requires
        all_fit(bound, t),
    ensures
        error_fits(bound, fn_arg(t, c)),
    decreases ahead(t, c), 4nat,
{
    match (peek(t, c), peek_second(t, c)) {
        (Some((_, Tok::Name { .. }, _)), Some((_, Tok::Colon, _))) => {
            expressions_are_located(bound, t, next(t, next(t, c)));
        },
        _ => {
            expressions_are_located(bound, t, c);
        },
    }
}

proof fn lemma_expressions(bound: nat, t: Toks, c: Cursor)
    requires
        all_fit(bound, t),
    ensures
        error_fits(bound, expressions(t, c)),
    decreases ahead(t, c), 5nat,
{
    let p = expression_from(t, c);
    assert forall|d: Cursor| error_fits(bound, #[trigger] p(d)) by {
        expressions_are_located(bound, t, from(t, c, d));
    }
    errors_of_a_series(bound, p, t, Some(Tok::Comma), Seq::empty(), c);
}

/// A sequence of expressions and the errors in it are located within the bound of the tokens.
pub proof fn sequences_are_located(bound: nat, t: Toks, c: Cursor)
    requires
        all_fit(bound, t),
    ensures
        error_fits(bound, expression_seq(t, c)),
        expression_seq(t, c).res matches Ok(Some((expr, _))) ==> within(bound, expr.location()),
    decreases ahead(t, c), 4nat,
{
    match binding_start(t, c) {
        Some((start, kind)) => {
            lemma_binding(bound, t, next(t, c), start, kind);
        },
        None => {
            expressions_are_located(bound, t, c);
            let first = expression(t, c);
            if let Ok(Some(expr)) = first.res {
                if c.at < t.len() {
                    lemma_seq_rest(bound, t, after(t, c, first.to), expr);
                }
            }
        },
    }
}

proof fn lemma_seq_rest(bound: nat, t: Toks, c: Cursor, expr: ExprView)
    requires
        all_fit(bound, t),
        within(bound, expr.location()),
    ensures
        needed_seq_fits(bound, seq_rest(t, c, expr)),
    decreases ahead(t, c), 5nat,
{
    sequences_are_located(bound, t, c);
    let more = expression_seq(t, c);
    if let Ok(Some((follower, _))) = more.res {
        let longer = ExprView::Sequence { first: Box::new(expr), then: Box::new(follower) };
        assert(longer.location() == follower.location());
        if c.at < t.len() {
            lemma_seq_rest(bound, t, after(t, c, more.to), longer);
        }
    }
}

proof fn lemma_binding(bound: nat, t: Toks, c: Cursor, start: usize, kind: BindingKind)
    requires
        all_fit(bound, t),
        start <= bound,
    ensures
        needed_seq_fits(bound, binding(t, c, start, kind)),
    decreases ahead(t, c), 6nat,
{
    patterns_are_located(bound, t, c);
    let pat = pattern(t, c);
    if let Ok(Some(target)) = pat.res {
        annotations_are_located(bound, t, pat.to, Tok::Colon, false);
        let typ = type_annotation(t, pat.to, Tok::Colon, false);
        if let Ok(annotation) = typ.res {
            let equal = expect_one(t, typ.to, Tok::Equal);
            if let Ok(offsets) = equal.res {
                lemma_bound_value(
                    bound,
                    t,
                    from(t, c, equal.to),
                    (start, kind, target, annotation),
                    offsets,
                );
            }
        }
    }
}

proof fn lemma_bound_value(
    bound: nat,
    t: Toks,
    c: Cursor,
    head: (usize, BindingKind, PatternView, Option<TypeView>),
    equal: (usize, usize),
)
    requires
        all_fit(bound, t),
        head.0 <= bound,
        equal.0 <= bound,
        equal.1 <= bound,
    ensures
        needed_seq_fits(bound, bound_value(t, c, head, equal)),
    decreases ahead(t, c), 5nat,
{
    expressions_are_located(bound, t, c);
    sequences_are_located(bound, t, from(t, c, expression(t, c).to));
}

proof fn lemma_clause(bound: nat, t: Toks, c: Cursor)
    requires
        all_fit(bound, t),
    ensures
        error_fits(bound, case_clause(t, c)),
    decreases ahead(t, c), 4nat,
{
    lists_of_patterns_are_located(bound, t, c);
    let pats = patterns(t, c);
    lemma_alternatives(bound, t, pats.to, Seq::empty());
    let others = alternatives(t, pats.to, Seq::empty());
    errors_in_guards_are_located(bound, t, others.to, false);
    let arrow = expect_one(t, guard(t, others.to, false).to, Tok::RArrow);
    expressions_are_located(bound, t, from(t, c, arrow.to));
}

proof fn lemma_alternatives(bound: nat, t: Toks, c: Cursor, before: Seq<Seq<PatternView>>)
    requires
        all_fit(bound, t),
    ensures
        error_fits(bound, alternatives(t, c, before)),
    decreases ahead(t, c),
{
    if one(t, c, Tok::Vbar) is Some {
        let pats = patterns(t, next(t, c));
        lists_of_patterns_are_located(bound, t, next(t, c));
        if let Ok(alternative) = pats.res {
            lemma_alternatives(bound, t, after(t, c, pats.to), before.push(alternative));
        }
    }
}

/// A function and the errors in it are located within the bound of the tokens.
pub proof fn functions_are_located(
    bound: nat,
    t: Toks,
    c: Cursor,
    start: usize,
    public: bool,
    is_anon: bool,
)
    requires
        all_fit(bound, t),
        start <= bound,
    ensures
        error_fits(bound, function(t, c, start, public, is_anon)),
        function(t, c, start, public, is_anon).res matches Ok(
            Some(StatementView::Fn { location, .. }),
        ) ==> within(bound, location),
    decreases ahead(t, c), 7nat,
{
    let named = if is_anon {
        c
    } else {
        expect_name(t, c).to
    };
    lemma_fn_head(bound, t, named);
    let head = fn_head(t, named);
    sequences_are_located(bound, t, from(t, c, head.to));
}

proof fn lemma_fn_head(bound: nat, t: Toks, c: Cursor)
    requires
        all_fit(bound, t),
    ensures
        error_fits(bound, fn_head(t, c)),
        fn_head(t, c).res matches Ok((_, rpar_end, annotation)) ==> rpar_end <= bound && (annotation
            matches Some(typ) ==> within(bound, typ.location())),
{
    reveal(fn_head);
    let p = fn_param_in(t);
    assert forall|d: Cursor| error_fits(bound, #[trigger] p(d)) by {
        if let Some((_, _, _, to)) = param_names(t, d) {
            annotations_are_located(bound, t, to, Tok::Colon, false);
        }
        assert(error_fits(bound, fn_param(t, d)));
    }
    let lpar = expect_one(t, c, Tok::Lpar);
    errors_of_a_series(bound, p, t, Some(Tok::Comma), Seq::empty(), lpar.to);
    let params = series(p, t, Some(Tok::Comma), Seq::empty(), lpar.to);
    annotations_are_located(bound, t, expect_one(t, params.to, Tok::Rpar).to, Tok::RArrow, false);
}

} // verus!
