//! What expressions need.

use crate::ast::BindingKind;
use crate::call::ParserArgView;
use crate::error::ErrorView;
use crate::grammar::basics::{expect_name, expect_string, found, nothing, series, span};
use crate::grammar::exprs::{
    alternatives, binding, binding_start, bit_string_expr, block_expr, bound_value, call_or_update,
    case_clause, case_clause_from, case_expr, expr_chain, expr_head, expr_segment_from, expr_unit,
    expression, expression_seq, expressions, field_access, fn_arg, fn_args, list_expr, new_values,
    record_update, seq_rest, todo_expr, tuple_expr, unit_tail, update_arg, update_arg_from,
};
use crate::grammar::guards::guard;
use crate::grammar::patterns::{pattern, patterns};
use crate::grammar::types::type_annotation;
use crate::laws::needs::{lacks, lemma_lacks, needs, passes_on, stops};
use crate::laws::places::exprs::{
    alternatives_move, expr_head_is_found, expr_unit_is_found, expression_is_found,
    expressions_move,
};
use crate::laws::places::guards::guard_is_found;
use crate::laws::places::patterns::{pattern_is_found, patterns_move};
use crate::laws::places::types::type_annotation_is_found;
use crate::laws::rules::{at, begin, behind_label, end, is_any_name, is_name, is_tok, labelled};
use crate::laws::rules::sequences::binds;
use crate::model::{ExprView, PatternView, SpreadView, Text};
use crate::precedence::Op;
use crate::stream::{Cursor, Toks};
use crate::token::Tok;
use vstd::prelude::*;

verus! {

/// A tuple needs its elements in parentheses.
pub proof fn what_a_tuple_needs(t: Toks, i: nat, k: nat)
    requires
        is_tok(t, i, Tok::Tuple),
    ensures
        !is_tok(t, i + 1, Tok::Lpar) ==> lacks(expr_head(t, at(i)), t, i + 1, Tok::Lpar),
        is_tok(t, i + 1, Tok::Lpar) ==> needs(
            expr_head(t, at(i)),
            expressions(t, at(i + 2)),
            t,
            k,
            Tok::Rpar,
        ),
{
    let step = tuple_expr(t, at(i + 1), begin(t, i));
    lemma_lacks(t, i + 1, Tok::Lpar);
    lemma_lacks(t, k, Tok::Rpar);
    assert(step.res is Err ==> expr_head(t, at(i)).res is Err);
}

/// A list needs a closing bracket, also behind two dots, a tail and a comma.
pub proof fn what_a_list_needs(t: Toks, i: nat, k: nat, m: nat)
    requires
        is_tok(t, i, Tok::Lsqb),
    ensures
        ({
            let whole = expr_head(t, at(i));
            let elems = expressions(t, at(i + 1));
            let tail = expression(t, at(k + 1));
            &&& passes_on(whole, elems)
            &&& stops(elems, k) && !is_tok(t, k, Tok::Rsqb) && !is_tok(t, k, Tok::DotDot) ==> lacks(
                whole,
                t,
                k,
                Tok::Rsqb,
            )
            &&& stops(elems, k) && is_tok(t, k, Tok::DotDot) ==> {
                &&& passes_on(whole, tail)
                &&& stops(tail, m) && is_tok(t, m, Tok::Comma) && !is_tok(t, m + 1, Tok::Rsqb)
                    ==> lacks(whole, t, m + 1, Tok::Rsqb)
                &&& stops(tail, m) && !is_tok(t, m, Tok::Comma) && !is_tok(t, m, Tok::Rsqb)
                    ==> lacks(whole, t, m, Tok::Rsqb)
            }
        }),
{
    let step = list_expr(t, at(i + 1), begin(t, i));
    expressions_move(t, at(i + 1));
    lemma_lacks(t, k, Tok::Rsqb);
    lemma_lacks(t, m, Tok::Rsqb);
    lemma_lacks(t, m + 1, Tok::Rsqb);
    assert(step.res is Err ==> expr_head(t, at(i)).res is Err);
}

/// A bit string needs `>>` behind its segments.
pub proof fn what_a_bit_string_needs(t: Toks, i: nat, k: nat)
    requires
        is_tok(t, i, Tok::LtLt),
    ensures
        needs(
            expr_head(t, at(i)),
            series(expr_segment_from(t, at(i + 1)), t, Some(Tok::Comma), Seq::empty(), at(i + 1)),
            t,
            k,
            Tok::GtGt,
        ),
{
    let step = bit_string_expr(t, at(i + 1), begin(t, i));
    lemma_lacks(t, k, Tok::GtGt);
    assert(step.res is Err ==> expr_head(t, at(i)).res is Err);
}

/// A sequence in braces needs the closing one, and is then the expression that stands in them.
pub proof fn what_braces_need(t: Toks, i: nat, expr: ExprView, stop: usize, k: nat)
    requires
        is_tok(t, i, Tok::Lbrace),
    ensures
        needs(expr_head(t, at(i)), expression_seq(t, at(i + 1)), t, k, Tok::Rbrace),
        expression_seq(t, at(i + 1)) == found(Some((expr, stop)), at(k)) && is_tok(
            t,
            k,
            Tok::Rbrace,
        ) ==> expr_head(t, at(i)) == found(Some(expr), at(k + 1)),
{
    let step = block_expr(t, at(i + 1), begin(t, i));
    lemma_lacks(t, k, Tok::Rbrace);
    assert(step.res is Err ==> expr_head(t, at(i)).res is Err);
    assert(step.res is Ok ==> expr_head(t, at(i)).res is Ok);
}

/// The values of a case need braces behind them, and the clauses the closing one.
pub proof fn what_a_case_needs(t: Toks, i: nat, k: nat, m: nat)
    requires
        is_tok(t, i, Tok::Case),
    ensures
        ({
            let whole = expr_head(t, at(i));
            let values = expressions(t, at(i + 1));
            let clauses = series(case_clause_from(t, at(k + 1)), t, None, Seq::empty(), at(k + 1));
            &&& needs(whole, values, t, k, Tok::Lbrace)
            &&& stops(values, k) && is_tok(t, k, Tok::Lbrace) ==> needs(
                whole,
                clauses,
                t,
                m,
                Tok::Rbrace,
            )
        }),
{
    let step = case_expr(t, at(i + 1), begin(t, i), end(t, i));
    expressions_move(t, at(i + 1));
    lemma_lacks(t, k, Tok::Lbrace);
    lemma_lacks(t, m, Tok::Rbrace);
    assert(step.res is Err ==> expr_head(t, at(i)).res is Err);
}

/// A parenthesis behind `todo` needs a string and a closing one.
pub proof fn what_a_todo_needs(t: Toks, i: nat, k: nat)
    requires
        is_tok(t, i, Tok::Todo),
        is_tok(t, i + 1, Tok::Lpar),
    ensures
        needs(expr_head(t, at(i)), expect_string(t, at(i + 2)), t, k, Tok::Rpar),
{
    let step = todo_expr(t, at(i + 1), begin(t, i), end(t, i));
    lemma_lacks(t, k, Tok::Rpar);
    assert(step.res is Err ==> expr_head(t, at(i)).res is Err);
}

/// An error in the head of a unit is passed on, and so is one in what stands behind the head.
pub proof fn what_a_unit_needs(t: Toks, i: nat, expr: ExprView, j: nat)
    requires
        i <= t.len(),
    ensures
        passes_on(expr_unit(t, at(i)), expr_head(t, at(i))),
        expr_head(t, at(i)) == found(Some(expr), at(j)) ==> passes_on(
            expr_unit(t, at(i)),
            unit_tail(t, at(j), expr),
        ),
{
    expr_head_is_found(t, at(i));
}

/// An error in what stands between operators is passed on, whatever stands before it.
pub proof fn what_an_expression_needs(t: Toks, c: Cursor, units: Seq<ExprView>, ops: Seq<Op>)
    requires
        c.at <= t.len(),
    ensures
        passes_on(expr_chain(t, c, units, ops), expr_unit(t, c)),
        passes_on(expression(t, c), expr_unit(t, c)),
{
    expr_unit_is_found(t, c);
    assert(passes_on(expr_chain(t, c, Seq::empty(), Seq::empty()), expr_unit(t, c)));
}

/// A call needs a closing parenthesis behind its arguments. An error in an argument is passed on.
pub proof fn what_a_call_needs(t: Toks, j: nat, expr: ExprView, k: nat)
    requires
        is_tok(t, j, Tok::Lpar),
        !is_tok(t, j + 1, Tok::DotDot),
        !(is_any_name(t, j + 1) && is_tok(t, j + 2, Tok::DotDot)),
    ensures
        needs(unit_tail(t, at(j), expr), fn_args(t, at(j + 1)), t, k, Tok::Rpar),
{
    let step = call_or_update(t, at(j + 1), expr);
    lemma_lacks(t, k, Tok::Rpar);
    assert(step.res is Err ==> unit_tail(t, at(j), expr).res is Err);
}

/// A record update needs the name of a record, and a closing parenthesis behind the new values.
pub proof fn what_a_record_update_needs(t: Toks, j: nat, expr: ExprView, name: Text, k: nat)
    requires
        is_tok(t, j, Tok::Lpar),
        is_tok(t, j + 1, Tok::DotDot),
    ensures
        ({
            let whole = unit_tail(t, at(j), expr);
            let values = series(
                update_arg_from(t, at(j + 4)),
                t,
                Some(Tok::Comma),
                Seq::empty(),
                at(j + 4),
            );
            &&& passes_on(whole, expect_name(t, at(j + 2)))
            &&& is_name(t, j + 2, name) && is_tok(t, j + 3, Tok::Comma) ==> needs(
                whole,
                values,
                t,
                k,
                Tok::Rpar,
            )
            &&& is_name(t, j + 2, name) && !is_tok(t, j + 3, Tok::Comma) && !is_tok(
                t,
                j + 3,
                Tok::Rpar,
            ) ==> lacks(whole, t, j + 3, Tok::Rpar)
        }),
{
    let step = call_or_update(t, at(j + 1), expr);
    let update = record_update(t, at(j + 2), expr, begin(t, j + 1));
    assert(step == update);
    let spread = SpreadView {
        name,
        location: span(begin(t, j + 1), end(t, j + 2)),
    };
    let values = new_values(t, at(j + 3), expr, spread);
    assert(is_name(t, j + 2, name) ==> update == values);
    lemma_lacks(t, k, Tok::Rpar);
    lemma_lacks(t, j + 3, Tok::Rpar);
    assert(step.res is Err ==> unit_tail(t, at(j), expr).res is Err);
}

/// An error in what stands behind a dot is passed on.
pub proof fn what_a_dot_needs(t: Toks, j: nat, expr: ExprView)
    requires
        is_tok(t, j, Tok::Dot),
    ensures
        passes_on(unit_tail(t, at(j), expr), field_access(t, at(j + 1), expr)),
{
}

/// The label of a new value needs a colon. An error in the value is passed on.
pub proof fn what_a_new_value_needs(t: Toks, i: nat, label: Text)
    requires
        is_name(t, i, label),
    ensures
        !is_tok(t, i + 1, Tok::Colon) ==> lacks(update_arg(t, at(i)), t, i + 1, Tok::Colon),
        is_tok(t, i + 1, Tok::Colon) ==> passes_on(
            update_arg(t, at(i)),
            expression(t, at(i + 2)),
        ),
{
    lemma_lacks(t, i + 1, Tok::Colon);
}

/// An error in an argument of a call is passed on. Behind a label neither an expression nor a hole
/// needs to follow: there is no argument then.
pub proof fn what_an_argument_of_a_call_needs(t: Toks, i: nat, label: Option<Text>)
    requires
        labelled(t, i, label),
        i <= t.len(),
    ensures
        ({
            let j = behind_label(i, label);
            let value = expression(t, at(j));
            &&& passes_on(fn_arg(t, at(i)), value)
            &&& nothing(value) && !(j < t.len() && t[j as int] matches Some(
                (_, Tok::DiscardName { .. }, _),
            )) ==> fn_arg(t, at(i)) == found(None::<ParserArgView>, at(j))
        }),
{
    expression_is_found(t, at(behind_label(i, label)));
}

/// A binding needs a pattern, `=`, a value, and something behind it. An error in any of these is
/// passed on, and so is one in the type.
pub proof fn what_a_binding_needs(
    t: Toks,
    i: nat,
    kind: BindingKind,
    pat: PatternView,
    k: nat,
    m: nat,
    n: nat,
)
    requires
        binds(t, i, kind),
    ensures
        ({
            let whole = expression_seq(t, at(i));
            let typ = type_annotation(t, at(k), Tok::Colon, false);
            let value = expression(t, at(m + 1));
            let rest = expression_seq(t, at(n));
            &&& passes_on(whole, pattern(t, at(i + 1)))
            &&& pattern(t, at(i + 1)) == found(Some(pat), at(k)) ==> {
                &&& needs(whole, typ, t, m, Tok::Equal)
                &&& stops(typ, m) && is_tok(t, m, Tok::Equal) ==> {
                    &&& passes_on(whole, value)
                    &&& stops(value, n) ==> passes_on(whole, rest)
                }
            }
        }),
{
    let step = binding(t, at(i + 1), begin(t, i), kind);
    assert(binding_start(t, at(i)) == Some((begin(t, i), kind)));
    assert(step.res is Err ==> expression_seq(t, at(i)).res is Err);
    lemma_lacks(t, m, Tok::Equal);
    pattern_is_found(t, at(i + 1));
    let typ = type_annotation(t, at(k), Tok::Colon, false);
    if pattern(t, at(i + 1)) == found(Some(pat), at(k)) && stops(typ, m) && is_tok(
        t,
        m,
        Tok::Equal,
    ) {
        type_annotation_is_found(t, at(k), Tok::Colon, false);
        expression_is_found(t, at(m + 1));
        let bound = bound_value(
            t,
            at(m + 1),
            (begin(t, i), kind, pat, typ.res->Ok_0),
            (begin(t, m), end(t, m)),
        );
        assert(step == bound);
    }
}

/// An error in an expression is passed on where the expression stands in a sequence, and so is one
/// in what follows it there.
pub proof fn what_a_sequence_needs(t: Toks, i: nat, expr: ExprView, j: nat)
    requires
        i <= t.len(),
        binding_start(t, at(i)) is None,
    ensures
        passes_on(expression_seq(t, at(i)), expression(t, at(i))),
        expression(t, at(i)) == found(Some(expr), at(j)) ==> passes_on(
            expression_seq(t, at(i)),
            expression_seq(t, at(j)),
        ),
{
    expression_is_found(t, at(i));
    if expression(t, at(i)) == found(Some(expr), at(j)) {
        let step = seq_rest(t, at(j), expr);
        assert(passes_on(step, expression_seq(t, at(j))));
    }
}

/// A clause needs an arrow. An error in its patterns, its guard or its expression is passed on.
pub proof fn what_a_clause_needs(t: Toks, i: nat, k: nat, m: nat, n: nat)
    requires
        i <= t.len(),
    ensures
        ({
            let whole = case_clause(t, at(i));
            let pats = patterns(t, at(i));
            let others = alternatives(t, at(k), Seq::empty());
            let condition = guard(t, at(m), false);
            &&& passes_on(whole, pats)
            &&& stops(pats, k) && pats.res != Ok::<_, ErrorView>(Seq::<PatternView>::empty()) ==> {
                &&& passes_on(whole, others)
                &&& stops(others, m) ==> {
                    &&& needs(whole, condition, t, n, Tok::RArrow)
                    &&& stops(condition, n) && is_tok(t, n, Tok::RArrow) ==> passes_on(
                        whole,
                        expression(t, at(n + 1)),
                    )
                }
            }
        }),
{
    patterns_move(t, at(i));
    lemma_lacks(t, n, Tok::RArrow);
    let pats = patterns(t, at(i));
    if let Ok(pattern) = pats.res {
        if pattern.len() == 0 {
            assert(pattern =~= Seq::empty());
        }
    }
    let others = alternatives(t, at(k), Seq::empty());
    if stops(pats, k) {
        alternatives_move(t, at(k), Seq::empty());
        if stops(others, m) {
            guard_is_found(t, at(m), false);
        }
    }
}

/// An error in an alternative is passed on, whatever alternatives stand before it.
pub proof fn what_an_alternative_needs(t: Toks, i: nat, before: Seq<Seq<PatternView>>)
    requires
        is_tok(t, i, Tok::Vbar),
    ensures
        passes_on(alternatives(t, at(i), before), patterns(t, at(i + 1))),
{
}

} // verus!
