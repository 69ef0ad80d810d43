//! The rules of sequences, bindings and clauses.

use crate::ast::BindingKind;
use crate::error::ParseErrorType;
use crate::grammar::basics::{error_at, found, nothing, span};
use crate::grammar::exprs::{
    alternatives, binding, binding_start, bound_value, case_clause, expression, expression_seq,
    seq_rest,
};
use crate::grammar::guards::guard;
use crate::grammar::patterns::{pattern, patterns};
use crate::grammar::types::type_annotation;
use crate::laws::places::exprs::{expression_is_found, expression_seq_is_found};
use crate::laws::places::guards::guard_is_found;
use crate::laws::places::patterns::{pattern_is_found, patterns_move};
use crate::laws::places::types::type_is_found;
use crate::laws::rules::{annotated, at, begin, end, is_tok, listed, Row};
use crate::laws::rules::exprs::nothing_else_is_an_expression;
use crate::laws::rules::patterns::{lemma_patterns, pattern_in};
use crate::model::{ClauseView, ExprView, GuardView, PatternView, TypeView};
use crate::stream::Toks;
use crate::token::Tok;
use vstd::prelude::*;

verus! {

/// An expression behind which nothing follows is a sequence by itself, and ends where it ends.
pub proof fn an_expression_is_a_sequence(t: Toks, i: nat, expr: ExprView, j: nat)
    requires
        i <= t.len(),
        expression(t, at(i)) == found(Some(expr), at(j)),
        expression_seq(t, at(j)) == found(None::<(ExprView, usize)>, at(j)),
    ensures
        expression_seq(t, at(i)) == found(Some((expr, expr.location().end)), at(j)),
{
    expression_is_found(t, at(i));
    lemma_no_binding(t, i);
    assert(seq_rest(t, at(j), expr) == found((expr, expr.location().end), at(j)));
}

proof fn lemma_no_binding(t: Toks, i: nat)
    requires
        i <= t.len(),
        !nothing(expression(t, at(i))),
    ensures
        binding_start(t, at(i)) is None,
{
    nothing_else_is_an_expression(t, at(i));
}

/// An expression behind which a sequence follows makes a sequence with it, the expression first. A
/// sequence holds all that follows.
pub proof fn an_expression_before_a_sequence(
    t: Toks,
    i: nat,
    expr: ExprView,
    j: nat,
    then: ExprView,
    stop: usize,
    k: nat,
)
    requires
        i <= t.len(),
        expression(t, at(i)) == found(Some(expr), at(j)),
        expression_seq(t, at(j)) == found(Some((then, stop)), at(k)),
        expression_seq(t, at(k)) == found(None::<(ExprView, usize)>, at(k)),
    ensures
        expression_seq(t, at(i)) == found(
            Some(
                (
                    ExprView::Sequence { first: Box::new(expr), then: Box::new(then) },
                    then.location().end,
                ),
            ),
            at(k),
        ),
{
    expression_is_found(t, at(i));
    expression_seq_is_found(t, at(j));
    lemma_no_binding(t, i);
    let longer = ExprView::Sequence { first: Box::new(expr), then: Box::new(then) };
    assert(seq_rest(t, at(k), longer) == found((longer, longer.location().end), at(k)));
    assert(seq_rest(t, at(j), expr) == seq_rest(t, at(k), longer));
}

/// Which keyword starts which kind of binding.
pub open spec fn binds(t: Toks, i: nat, kind: BindingKind) -> bool {
    ||| is_tok(t, i, Tok::Let) && kind == BindingKind::Let
    ||| is_tok(t, i, Tok::Assert) && kind == BindingKind::Assert
    ||| is_tok(t, i, Tok::Try) && kind == BindingKind::Try
}

/// A keyword, a pattern, `=`, an expression and the sequence that follows are a binding of the
/// pattern to the expression in that sequence, with the type that stands behind a colon if there is
/// one.
pub proof fn a_binding(
    t: Toks,
    i: nat,
    kind: BindingKind,
    pat: PatternView,
    j: nat,
    annotation: Option<TypeView>,
    k: nat,
    value: ExprView,
    m: nat,
    then: ExprView,
    stop: usize,
    n: nat,
)
    requires
        binds(t, i, kind),
        pattern(t, at(i + 1)) == found(Some(pat), at(j)),
        annotated(t, j, Tok::Colon, false, annotation, k),
        is_tok(t, k, Tok::Equal),
        expression(t, at(k + 1)) == found(Some(value), at(m)),
        expression_seq(t, at(m)) == found(Some((then, stop)), at(n)),
    ensures
        expression_seq(t, at(i)) == found(
            Some(
                (
                    ExprView::Let {
                        location: span(begin(t, i), value.location().end),
                        value: Box::new(value),
                        pattern: pat,
                        then: Box::new(then),
                        kind,
                        annotation,
                    },
                    stop,
                ),
            ),
            at(n),
        ),
{
    lemma_bound(t, i, j, annotation, k);
    pattern_is_found(t, at(i + 1));
    expression_is_found(t, at(k + 1));
    let head = (begin(t, i), kind, pat, annotation);
    let step = bound_value(t, at(k + 1), head, (begin(t, k), end(t, k)));
    assert(step.res is Ok);
    assert(binding(t, at(i + 1), begin(t, i), kind) == step);
}

proof fn lemma_bound(t: Toks, i: nat, j: nat, annotation: Option<TypeView>, k: nat)
    requires
        annotated(t, j, Tok::Colon, false, annotation, k),
    ensures
        type_annotation(t, at(j), Tok::Colon, false) == found(
            annotation,
            at(k),
        ),
        j <= k,
{
    if annotation is Some {
        type_is_found(t, at(j + 1), false);
    }
}

/// A binding needs a value, and a sequence in which it holds.
pub proof fn a_binding_needs_a_value_and_a_sequence(
    t: Toks,
    i: nat,
    kind: BindingKind,
    pat: PatternView,
    j: nat,
    annotation: Option<TypeView>,
    k: nat,
)
    requires
        binds(t, i, kind),
        pattern(t, at(i + 1)) == found(Some(pat), at(j)),
        annotated(t, j, Tok::Colon, false, annotation, k),
        is_tok(t, k, Tok::Equal),
        expression(t, at(k + 1)).res is Ok,
        expression_seq(t, expression(t, at(k + 1)).to).res is Ok,
    ensures
        nothing(expression(t, at(k + 1))) ==> expression_seq(t, at(i)).res == error_at::<
            Option<(ExprView, usize)>,
        >(ParseErrorType::ExpectedValue, span(begin(t, k), end(t, k)), at(k)).res,
        expression(t, at(k + 1)).res matches Ok(Some(value)) ==> nothing(
            expression_seq(t, expression(t, at(k + 1)).to),
        ) ==> expression_seq(t, at(i)).res == error_at::<Option<(ExprView, usize)>>(
            ParseErrorType::ExprTailBinding,
            span(begin(t, i), value.location().end),
            at(k),
        ).res,
{
    lemma_bound(t, i, j, annotation, k);
    pattern_is_found(t, at(i + 1));
    expression_is_found(t, at(k + 1));
    let head = (begin(t, i), kind, pat, annotation);
    let step = bound_value(t, at(k + 1), head, (begin(t, k), end(t, k)));
    assert(binding(t, at(i + 1), begin(t, i), kind) == step);
}

/// Whether rows of patterns stand at a position, each behind a bar, up to another position.
pub open spec fn alternatives_at(
    t: Toks,
    i: nat,
    rows: Seq<Row<PatternView>>,
    j: nat,
) -> bool
    decreases rows.len(),
{
    if rows.len() == 0 {
        j == i && !is_tok(t, i, Tok::Vbar)
    } else {
        let k = if rows[0].things.len() > 0 {
            rows[0].stops.last()
        } else {
            i + 1
        };
        &&& is_tok(t, i, Tok::Vbar)
        &&& listed(t, pattern_in(t), Tok::Comma, i + 1, k, rows[0])
        &&& is_tok(t, k, Tok::Vbar) || is_tok(t, k, Tok::If) || is_tok(t, k, Tok::RArrow)
        &&& alternatives_at(t, k, rows.drop_first(), j)
    }
}

/// The patterns of rows.
pub open spec fn all_things(rows: Seq<Row<PatternView>>) -> Seq<Seq<PatternView>> {
    rows.map_values(|row: Row<PatternView>| row.things)
}

proof fn lemma_alternatives(
    t: Toks,
    i: nat,
    rows: Seq<Row<PatternView>>,
    j: nat,
    before: Seq<Seq<PatternView>>,
)
    requires
        i <= t.len(),
        alternatives_at(t, i, rows, j),
    ensures
        alternatives(t, at(i), before) == found(before + all_things(rows), at(j)),
        i <= j <= t.len(),
    decreases rows.len(),
{
    if rows.len() == 0 {
        assert(before + all_things(rows) =~= before);
    } else {
        let k = if rows[0].things.len() > 0 {
            rows[0].stops.last()
        } else {
            i + 1
        };
        lemma_patterns(t, i + 1, k, rows[0]);
        patterns_move(t, at(i + 1));
        let more = before.push(rows[0].things);
        lemma_alternatives(t, k, rows.drop_first(), j, more);
        assert(more + all_things(rows.drop_first()) =~= before + all_things(rows));
    }
}

/// Patterns with commas between them, alternatives to them behind bars, a guard if there is one, an
/// arrow and an expression are a clause. All patterns and alternatives are in their order.
pub proof fn a_clause(
    t: Toks,
    i: nat,
    row: Row<PatternView>,
    j: nat,
    rows: Seq<Row<PatternView>>,
    k: nat,
    condition: Option<GuardView>,
    m: nat,
    then: ExprView,
    n: nat,
)
    requires
        i <= t.len(),
        listed(t, pattern_in(t), Tok::Comma, i, j, row),
        row.things.len() > 0,
        is_tok(t, j, Tok::Vbar) || is_tok(t, j, Tok::If) || is_tok(t, j, Tok::RArrow),
        alternatives_at(t, j, rows, k),
        guard(t, at(k), false) == found(condition, at(m)),
        is_tok(t, m, Tok::RArrow),
        expression(t, at(m + 1)) == found(Some(then), at(n)),
    ensures
        case_clause(t, at(i)) == found(
            Some(
                ClauseView {
                    location: span(row.things[0].location().start, then.location().end),
                    pattern: row.things,
                    alternative_patterns: all_things(rows),
                    guard: condition,
                    then,
                },
            ),
            at(n),
        ),
{
    lemma_patterns(t, i, j, row);
    patterns_move(t, at(i));
    lemma_alternatives(t, j, rows, k, Seq::empty());
    assert(Seq::empty() + all_things(rows) =~= all_things(rows));
    guard_is_found(t, at(k), false);
}

/// Behind its arrow a clause needs an expression.
pub proof fn a_clause_needs_an_expression(
    t: Toks,
    i: nat,
    row: Row<PatternView>,
    j: nat,
    rows: Seq<Row<PatternView>>,
    k: nat,
    condition: Option<GuardView>,
    m: nat,
)
    requires
        i <= t.len(),
        listed(t, pattern_in(t), Tok::Comma, i, j, row),
        row.things.len() > 0,
        is_tok(t, j, Tok::Vbar) || is_tok(t, j, Tok::If) || is_tok(t, j, Tok::RArrow),
        alternatives_at(t, j, rows, k),
        guard(t, at(k), false) == found(condition, at(m)),
        is_tok(t, m, Tok::RArrow),
        nothing(expression(t, at(m + 1))),
    ensures
        case_clause(t, at(i)).res == error_at::<Option<ClauseView>>(
            ParseErrorType::ExpectedExpr,
            span(begin(t, m), end(t, m)),
            at(m),
        ).res,
{
    lemma_patterns(t, i, j, row);
    patterns_move(t, at(i));
    lemma_alternatives(t, j, rows, k, Seq::empty());
    guard_is_found(t, at(k), false);
}

} // verus!
