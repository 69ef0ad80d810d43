//! The rules of expressions: what a unit starts with, and what may follow it.

use crate::ast::UntypedExpr;
use crate::error::ParseErrorType;
use crate::grammar::basics::{error_at, failed, found, nothing, series, span, Step};
use crate::grammar::exprs::{
    bit_string_expr, case_clause, case_clause_from, case_expr, expect_expression,
    expect_expression_from, expr_chain, expr_head, expr_number, expr_segment, expr_segment_from,
    expr_unit, expression, expression_from, expressions, list_expr, list_of, todo_expr, tuple_expr,
    unit_tail,
};
use crate::grammar::patterns::{bare_pattern, pattern, pattern_from, patterns};
use crate::grammar::segments::segment_option_in;
use crate::laws::places::{advances, moves};
use crate::laws::places::exprs::{
    case_clause_is_found, expr_chain_is_found, expr_head_is_found, expr_segment_is_found,
    expr_unit_is_found, expression_is_found,
};
use crate::laws::rules::{
    at, begin, end, in_a_row, is_float, is_int, is_name, is_string, is_tok, is_upname,
    lemma_in_a_row, lemma_listed, listed, Row,
};
use crate::laws::rules::segments::{a_segment_with_options, a_segment_without_options};
use crate::location::location_in;
use crate::model::{ClauseView, ExprView, PatternView, SegmentOptionView, SegmentView, Text};
use crate::number::decimal;
use crate::operator::expr_precedence;
use crate::stream::{give_up, next, peek, Cursor, Toks};
use crate::token::Tok;
use vstd::prelude::*;

verus! {

/// An expression at a place of a stream.
pub open spec fn expression_in(t: Toks) -> spec_fn(Cursor) -> Step<Option<ExprView>> {
    |c: Cursor| expression(t, c)
}

/// A segment of a bit string at a place of a stream.
pub open spec fn expr_segment_in(t: Toks) -> spec_fn(Cursor) -> Step<
    Option<SegmentView<ExprView>>,
> {
    |c: Cursor| expr_segment(t, c)
}

/// A clause of a case expression at a place of a stream.
pub open spec fn clause_in(t: Toks) -> spec_fn(Cursor) -> Step<Option<ClauseView>> {
    |c: Cursor| case_clause(t, c)
}

/// A unit is what it starts with and all that follows that.
pub proof fn a_unit_is_its_head_and_tail(t: Toks, i: nat, expr: ExprView, j: nat)
    requires
        i <= t.len(),
        expr_head(t, at(i)) == found(Some(expr), at(j)),
    ensures
        unit_tail(t, at(j), expr).res matches Ok(whole) ==> expr_unit(t, at(i)) == found(
            Some(whole),
            unit_tail(t, at(j), expr).to,
        ),
        unit_tail(t, at(j), expr).res matches Err(error) ==> expr_unit(t, at(i))
            == failed::<Option<ExprView>>(
            error,
            unit_tail(t, at(j), expr).to,
        ),
        !is_tok(t, j, Tok::Dot) && !is_tok(t, j, Tok::Lpar) ==> expr_unit(t, at(i)) == found(
            Some(expr),
            at(j),
        ),
{
    expr_head_is_found(t, at(i));
    lemma_no_tail(t, j, expr);
}

pub(crate) proof fn lemma_no_tail(t: Toks, j: nat, expr: ExprView)
    ensures
        !is_tok(t, j, Tok::Dot) && !is_tok(t, j, Tok::Lpar) ==> unit_tail(t, at(j), expr) == found(
            expr,
            at(j),
        ),
{
}

/// A dot and a number behind an expression are an element of a tuple, a dot and a name a field of a
/// record. More may follow.
pub proof fn a_dot_behind_an_expression(
    t: Toks,
    j: nat,
    expr: ExprView,
    text: Text,
)
    requires
        is_tok(t, j, Tok::Dot),
    ensures
        ({
            let location = span(expr.location().start, end(t, j + 1));
            let step = unit_tail(t, at(j), expr);
            &&& is_int(t, j + 1, text) ==> match decimal(text) {
                Some(index) => step == unit_tail(
                    t,
                    at(j + 2),
                    ExprView::TupleIndex { location, index, tuple: Box::new(expr) },
                ),
                None => step == error_at::<ExprView>(
                    ParseErrorType::InvalidTupleAccess,
                    location,
                    at(j + 2),
                ),
            }
            &&& is_name(t, j + 1, text) || is_upname(t, j + 1, text) ==> step == unit_tail(
                t,
                at(j + 2),
                ExprView::FieldAccess { location, label: text, container: Box::new(expr) },
            )
        }),
{
}

/// A token that is an expression by itself: a literal, a name or `[]`.
pub proof fn a_token_is_an_expression(t: Toks, i: nat, text: Text)
    ensures
        ({
            let location = span(begin(t, i), end(t, i));
            let step = expr_head(t, at(i));
            let to = at(i + 1);
            &&& is_string(t, i, text) ==> step == found(
                Some(ExprView::String { location, value: text }),
                to,
            )
            &&& is_int(t, i, text) ==> step == found(
                Some(ExprView::Int { location, value: text }),
                to,
            )
            &&& is_float(t, i, text) ==> step == found(
                Some(ExprView::Float { location, value: text }),
                to,
            )
            &&& is_name(t, i, text) ==> step == found(
                Some(ExprView::Var { location, name: text }),
                to,
            )
            &&& is_upname(t, i, text) ==> step == found(
                Some(ExprView::Var { location, name: text }),
                to,
            )
            &&& is_tok(t, i, Tok::ListNil) ==> step == found(
                Some(ExprView::ListNil { location }),
                to,
            )
        }),
{
}

/// `todo` is an expression, with the string in parentheses behind it as its label if there is one.
pub proof fn a_todo(t: Toks, i: nat, label: Text)
    requires
        is_tok(t, i, Tok::Todo),
    ensures
        !is_tok(t, i + 1, Tok::Lpar) ==> expr_head(t, at(i)) == found(
            Some(ExprView::Todo { location: span(begin(t, i), end(t, i)), label: None }),
            at(i + 1),
        ),
        is_tok(t, i + 1, Tok::Lpar) && is_string(t, i + 2, label) && is_tok(t, i + 3, Tok::Rpar)
            ==> expr_head(t, at(i)) == found(
            Some(
                ExprView::Todo { location: span(begin(t, i), end(t, i + 3)), label: Some(label) },
            ),
            at(i + 4),
        ),
{
    let step = todo_expr(t, at(i + 1), begin(t, i), end(t, i));
}

/// `tuple` with expressions in parentheses behind it is a tuple of these expressions.
pub proof fn a_tuple(t: Toks, i: nat, row: Row<ExprView>, k: nat)
    requires
        is_tok(t, i, Tok::Tuple),
        is_tok(t, i + 1, Tok::Lpar),
        listed(t, expression_in(t), Tok::Comma, i + 2, k, row),
        is_tok(t, k, Tok::Rpar),
    ensures
        expr_head(t, at(i)) == found(
            Some(ExprView::Tuple { location: span(begin(t, i), end(t, k)), elems: row.things }),
            at(k + 1),
        ),
{
    lemma_expressions(t, i + 2, k, row);
    assert(tuple_expr(t, at(i + 1), begin(t, i)).res is Ok);
}

pub(crate) proof fn lemma_nothing_at(t: Toks, k: nat)
    requires
        k < t.len(),
        t[k as int] matches Some((_, Tok::Rpar | Tok::Rsqb | Tok::Rbrace | Tok::GtGt | Tok::DotDot
        | Tok::Comma, _)),
    ensures
        expr_unit(t, at(k)) == found(None::<ExprView>, at(k)),
        expression(t, at(k)) == found(None::<ExprView>, at(k)),
{
    assert(expr_head(t, at(k)) == found(None::<ExprView>, at(k)));
    assert(expr_unit(t, at(k)) == found(None::<ExprView>, at(k)));
    let step = expr_chain(t, at(k), Seq::empty(), Seq::empty());
    assert(step == found(None::<ExprView>, at(k)));
}

proof fn lemma_expressions(t: Toks, i: nat, k: nat, row: Row<ExprView>)
    requires
        i <= t.len(),
        listed(t, expression_in(t), Tok::Comma, i, k, row),
        is_tok(t, k, Tok::Rpar) || is_tok(t, k, Tok::Rsqb) || is_tok(t, k, Tok::DotDot),
    ensures
        expressions(t, at(i)) == found(row.things, at(k)),
        i <= k,
{
    let p = expression_from(t, at(i));
    let q = expression_in(t);
    assert forall|d: Cursor| i <= d.at <= t.len() implies #[trigger] p(d) == q(d) && advances(
        t,
        d,
        p(d),
    ) by {
        expression_is_found(t, d);
    }
    lemma_nothing_at(t, k);
    lemma_listed(t, q, p, Tok::Comma, i, k, row);
}

/// Whether an expression is a list of elements that goes on with a tail: each element is the head
/// of a list whose tail is the list of the others, and all lists are located where the tail is.
pub open spec fn lists(expr: ExprView, elements: Seq<ExprView>, tail: ExprView) -> bool
    decreases elements.len(),
{
    if elements.len() == 0 {
        expr == tail
    } else {
        expr matches ExprView::ListCons { location, head, tail: rest } && {
            &&& *head == elements[0]
            &&& location == tail.location()
            &&& lists(*rest, elements.drop_first(), tail)
        }
    }
}

proof fn lemma_list_of(elements: Seq<ExprView>, tail: ExprView)
    ensures
        lists(list_of(elements, tail), elements, tail),
    decreases elements.len(),
{
    if elements.len() > 0 {
        lemma_list_of(elements.drop_first(), tail);
    }
}

/// Whether a list ends behind its last element: with a bracket, before which two dots may stand
/// with a tail. `m` is the bracket. Without a tail the list ends, and that is located from the one
/// bracket to the other.
pub open spec fn list_closes(t: Toks, i: nat, k: nat, tail: ExprView, m: nat) -> bool {
    let empty = ExprView::ListNil { location: span(begin(t, i), end(t, m)) };
    &&& is_tok(t, m, Tok::Rsqb)
    &&& {
        ||| m == k && tail == empty
        ||| is_tok(t, k, Tok::DotDot) && (m == k + 1 || is_tok(t, k + 1, Tok::Comma) && m == k + 2)
            && tail == empty
        ||| {
            &&& is_tok(t, k, Tok::DotDot)
            &&& {
                ||| expression(t, at(k + 1)) == found(Some(tail), at(m))
                ||| m > 0 && expression(t, at(k + 1)) == found(Some(tail), at((m - 1) as nat))
                    && is_tok(t, (m - 1) as nat, Tok::Comma)
            }
        }
    }
}

/// Expressions in brackets are a list of them, with the tail that stands behind two dots.
#[verifier::rlimit(40)]
#[verifier::spinoff_prover]
pub proof fn a_list(t: Toks, i: nat, row: Row<ExprView>, k: nat, tail: ExprView, m: nat)
    requires
        is_tok(t, i, Tok::Lsqb),
        listed(t, expression_in(t), Tok::Comma, i + 1, k, row),
        list_closes(t, i, k, tail, m),
    ensures
        expr_head(t, at(i)).to == at(m + 1),
        expr_head(t, at(i)).res matches Ok(Some(expr)) && lists(expr, row.things, tail),
{
    lemma_expressions(t, i + 1, k, row);
    if is_tok(t, k + 1, Tok::Rsqb) || is_tok(t, k + 1, Tok::Comma) {
        lemma_nothing_at(t, k + 1);
    }
    expression_is_found(t, at(k + 1));
    lemma_list_of(row.things, tail);
    assert(list_expr(t, at(i + 1), begin(t, i)) == found(list_of(row.things, tail), at(m + 1)));
}

/// Segments between `<<` and `>>` are a bit string of them.
pub proof fn a_bit_string(t: Toks, i: nat, row: Row<SegmentView<ExprView>>, k: nat)
    requires
        is_tok(t, i, Tok::LtLt),
        listed(t, expr_segment_in(t), Tok::Comma, i + 1, k, row),
        is_tok(t, k, Tok::GtGt),
    ensures
        expr_head(t, at(i)) == found(
            Some(
                ExprView::BitString {
                    location: span(begin(t, i), end(t, k)),
                    segments: row.things,
                },
            ),
            at(k + 1),
        ),
{
    lemma_segments(t, i + 1, k, row);
    assert(bit_string_expr(t, at(i + 1), begin(t, i)).res is Ok);
}

proof fn lemma_segments(t: Toks, i: nat, k: nat, row: Row<SegmentView<ExprView>>)
    requires
        i <= t.len(),
        listed(t, expr_segment_in(t), Tok::Comma, i, k, row),
        is_tok(t, k, Tok::GtGt),
    ensures
        series(expr_segment_from(t, at(i)), t, Some(Tok::Comma), Seq::empty(), at(i)) == found(
            row.things,
            at(k),
        ),
        i <= k,
{
    let p = expr_segment_from(t, at(i));
    let q = expr_segment_in(t);
    assert forall|d: Cursor| i <= d.at <= t.len() implies #[trigger] p(d) == q(d) && advances(
        t,
        d,
        p(d),
    ) by {
        expr_segment_is_found(t, d);
    }
    lemma_nothing_at(t, k);
    assert(q(at(k)) == found(None::<SegmentView<ExprView>>, at(k)));
    lemma_listed(t, q, p, Tok::Comma, i, k, row);
}

/// A unit is a segment of a bit string, with the options behind a colon if there are any. The
/// argument of an option is an expression.
pub proof fn a_segment_of_an_expression(
    t: Toks,
    i: nat,
    value: ExprView,
    j: nat,
    row: Row<SegmentOptionView<ExprView>>,
    k: nat,
)
    requires
        i <= t.len(),
        expr_unit(t, at(i)) == found(Some(value), at(j)),
        ({
            ||| !is_tok(t, j, Tok::Colon) && row.things.len() == 0 && k == j
            ||| {
                &&& is_tok(t, j, Tok::Colon)
                &&& listed(
                    t,
                    segment_option_in(expect_expression_from(t, at(i)), expr_number(), t),
                    Tok::Minus,
                    j + 1,
                    k,
                    row,
                )
                &&& row.things.len() > 0
                &&& k == row.stops.last()
                &&& !is_tok(t, k, Tok::Minus)
            }
        }),
    ensures
        expr_segment(t, at(i)) == found(
            Some(
                SegmentView {
                    location: span(
                        value.location().start,
                        if row.things.len() > 0 {
                            row.things.last().location().end
                        } else {
                            value.location().end
                        },
                    ),
                    value: Box::new(value),
                    options: row.things,
                },
            ),
            at(k),
        ),
{
    let first = expr_unit(t, at(i));
    let arg = expect_expression_from(t, at(i));
    let location = location_in::<UntypedExpr>();
    expr_unit_is_found(t, at(i));
    if row.things.len() == 0 {
        assert(row.things =~= Seq::empty());
        a_segment_without_options(first, arg, expr_number(), location, t, value, j);
    } else {
        assert forall|d: Cursor| j <= d.at <= t.len() implies moves(t, d, #[trigger] arg(d)) by {
            expression_is_found(t, d);
            assert(moves(t, d, expect_expression(t, d)));
        }
        a_segment_with_options(first, arg, expr_number(), location, t, value, j, row, k);
    }
}

/// The argument of an option of a bit string is an expression; its size in the short form is a
/// number.
pub proof fn an_argument_of_an_option(t: Toks, i: nat, expr: ExprView, j: nat, text: Text)
    ensures
        expression(t, at(i)) == found(Some(expr), at(j)) ==> expect_expression(t, at(i)) == found(
            expr,
            at(j),
        ),
        expr_number()(text, begin(t, i), end(t, i)) == (ExprView::Int {
            location: span(begin(t, i), end(t, i)),
            value: text,
        }),
{
}

/// `case`, expressions, and clauses in braces are a case expression with these expressions and all
/// clauses, each in their order.
pub proof fn a_case(
    t: Toks,
    i: nat,
    subjects: Seq<ExprView>,
    j: nat,
    row: Row<ClauseView>,
    k: nat,
)
    requires
        is_tok(t, i, Tok::Case),
        expressions(t, at(i + 1)) == found(subjects, at(j)),
        i + 1 <= j,
        is_tok(t, j, Tok::Lbrace),
        in_a_row(clause_in(t), j + 1, k, row),
        is_tok(t, k, Tok::Rbrace),
        subjects.len() > 0,
        row.things.len() > 0,
    ensures
        expr_head(t, at(i)) == found(
            Some(
                ExprView::Case {
                    location: span(begin(t, i), end(t, k)),
                    subjects,
                    clauses: row.things,
                },
            ),
            at(k + 1),
        ),
{
    lemma_clauses(t, j + 1, k, row);
    assert(case_expr(t, at(i + 1), begin(t, i), end(t, i)).res is Ok);
}

/// A case expression needs a value to look at, and a clause.
pub proof fn a_case_needs_values_and_clauses(
    t: Toks,
    i: nat,
    subjects: Seq<ExprView>,
    j: nat,
    row: Row<ClauseView>,
    k: nat,
)
    requires
        is_tok(t, i, Tok::Case),
        expressions(t, at(i + 1)) == found(subjects, at(j)),
        i + 1 <= j,
        is_tok(t, j, Tok::Lbrace),
        in_a_row(clause_in(t), j + 1, k, row),
        is_tok(t, k, Tok::Rbrace),
    ensures
        subjects.len() == 0 ==> expr_head(t, at(i)) == error_at::<Option<ExprView>>(
            ParseErrorType::ExpectedExpr,
            span(begin(t, i), end(t, i)),
            at(k + 1),
        ),
        subjects.len() > 0 && row.things.len() == 0 ==> expr_head(t, at(i)) == error_at::<
            Option<ExprView>,
        >(ParseErrorType::NoCaseClause, span(begin(t, i), end(t, k)), at(k + 1)),
{
    lemma_clauses(t, j + 1, k, row);
    let step = case_expr(t, at(i + 1), begin(t, i), end(t, i));
    assert(subjects.len() == 0 || row.things.len() == 0 ==> step.res is Err);
}

proof fn lemma_clauses(t: Toks, i: nat, k: nat, row: Row<ClauseView>)
    requires
        i <= t.len(),
        in_a_row(clause_in(t), i, k, row),
        is_tok(t, k, Tok::Rbrace),
    ensures
        series(case_clause_from(t, at(i)), t, None, Seq::empty(), at(i)) == found(
            row.things,
            at(k),
        ),
        i <= k,
{
    let p = case_clause_from(t, at(i));
    let q = clause_in(t);
    assert forall|d: Cursor| i <= d.at <= t.len() implies #[trigger] p(d) == q(d) && advances(
        t,
        d,
        p(d),
    ) by {
        case_clause_is_found(t, d);
    }
    assert(row.things.take(0) =~= Seq::empty());
    lemma_no_clause(t, k);
    assert(q(at(k)) == found(None::<ClauseView>, at(k)));
    lemma_in_a_row(t, q, p, i, k, row, 0);
}

proof fn lemma_no_clause(t: Toks, k: nat)
    requires
        is_tok(t, k, Tok::Rbrace),
    ensures
        case_clause(t, at(k)) == found(None::<ClauseView>, at(k)),
{
    let p = pattern_from(t, at(k));
    assert(bare_pattern(t, at(k)) == found(
        None::<PatternView>,
        at(k),
    ));
    assert(pattern(t, at(k)) == found(
        None::<PatternView>,
        at(k),
    ));
    assert(p(at(k)) == found(None::<PatternView>, at(k)));
    assert(patterns(t, at(k)) == found(
        Seq::<PatternView>::empty(),
        at(k),
    ));
}

/// The values of a case expression are expressions with commas between them, up to the brace.
pub proof fn the_values_of_a_case(t: Toks, i: nat, row: Row<ExprView>, j: nat)
    requires
        i <= t.len(),
        listed(t, expression_in(t), Tok::Comma, i, j, row),
        row.things.len() > 0,
        j == row.stops.last(),
        !is_tok(t, j, Tok::Comma),
    ensures
        expressions(t, at(i)) == found(row.things, at(j)),
        i <= j,
{
    let p = expression_from(t, at(i));
    let q = expression_in(t);
    assert forall|d: Cursor| i <= d.at <= t.len() implies #[trigger] p(d) == q(d) && advances(
        t,
        d,
        p(d),
    ) by {
        expression_is_found(t, d);
    }
    lemma_listed(t, q, p, Tok::Comma, i, j, row);
}

/// A parenthesis starts no expression: there is an error of its own for it, located at its start.
pub proof fn no_parentheses_around_expressions(t: Toks, i: nat)
    requires
        is_tok(t, i, Tok::Lpar),
    ensures
        expr_unit(t, at(i)) == error_at::<Option<ExprView>>(
            ParseErrorType::ExprLparStart,
            span(begin(t, i), begin(t, i)),
            give_up(at(i)),
        ),
{
    assert(expr_head(t, at(i)).res is Err);
}

/// No other token starts an expression.
pub proof fn nothing_else_is_an_expression(t: Toks, c: Cursor)
    requires
        c.at <= t.len(),
    ensures
        nothing(expression(t, c)) <==> {
            ||| c.lost
            ||| c.at >= t.len()
            ||| !(t[c.at as int] matches Some(
                (
                    _,
                    Tok::String { .. }
                    | Tok::Int { .. }
                    | Tok::Float { .. }
                    | Tok::ListNil
                    | Tok::Name { .. }
                    | Tok::UpName { .. }
                    | Tok::Todo
                    | Tok::Tuple
                    | Tok::Lsqb
                    | Tok::LtLt
                    | Tok::Fn
                    | Tok::Lbrace
                    | Tok::Case
                    | Tok::Lpar,
                    _,
                ),
            ))
        },
        nothing(expression(t, c)) ==> expression(t, c).to == c,
{
    expression_is_found(t, c);
    expr_head_is_found(t, c);
    expr_unit_is_found(t, c);
    let head = expr_head(t, c);
    let unit = expr_unit(t, c);
    assert(nothing(unit) <==> nothing(head));
    if let Ok(Some(value)) = unit.res {
        if let Some((start, tok, stop)) = peek(t, unit.to) {
            if let Some(p) = expr_precedence(tok) {
                expr_chain_is_found(
                    t,
                    next(t, unit.to),
                    Seq::empty().push(value),
                    Seq::empty().push(((start, tok, stop), p)),
                );
            }
        }
    }
    let chain = expr_chain(t, c, Seq::empty(), Seq::empty());
    assert(nothing(chain) <==> nothing(unit));
}

} // verus!
