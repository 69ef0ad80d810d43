//! The rules of calls and record updates.

use crate::ast::{CAPTURE_VARIABLE, SrcSpan};
use crate::call::{call, filled, holes, ParserArgView};
use crate::error::{ErrorView, ParseErrorType};
use crate::grammar::basics::{error_at, failed, found, series, span, Step};
use crate::grammar::exprs::{
    call_or_update, expression, fn_arg, fn_arg_from, fn_args, new_values, record_update, unit_tail,
    update_arg, update_arg_from,
};
use crate::laws::places::advances;
use crate::laws::places::exprs::{fn_arg_is_found, update_arg_is_found};
use crate::laws::rules::{
    at, begin, behind_label, end, is_any_name, is_discard, is_name, is_tok, labelled, lemma_listed,
    listed, Row,
};
use crate::laws::rules::exprs::{lemma_nothing_at, nothing_else_is_an_expression};
use crate::model::{
    ArgNamesView, ArgView, CallArgView, ExprView, RecordUpdateArgView, SpreadView, Text,
};
use crate::stream::{Cursor, Toks};
use crate::token::Tok;
use vstd::prelude::*;

verus! {

/// An argument of a call at a place of a stream.
pub open spec fn arg_in(t: Toks) -> spec_fn(Cursor) -> Step<Option<ParserArgView>> {
    |c: Cursor| fn_arg(t, c)
}

/// A new value for a field at a place of a stream.
pub open spec fn update_in(t: Toks) -> spec_fn(Cursor) -> Step<Option<RecordUpdateArgView>> {
    |c: Cursor| update_arg(t, c)
}

/// An expression is an argument of a call, without a label or with the one that stands before it
/// and a colon.
pub proof fn an_argument_of_a_call(
    t: Toks,
    i: nat,
    label: Option<Text>,
    value: ExprView,
    j: nat,
)
    requires
        labelled(t, i, label),
        expression(t, at(behind_label(i, label))) == found(Some(value), at(j)),
    ensures
        fn_arg(t, at(i)) == found(
            Some(
                ParserArgView::Arg(
                    CallArgView {
                        label,
                        location: span(
                            if label is Some {
                                begin(t, i)
                            } else {
                                value.location().start
                            },
                            value.location().end,
                        ),
                        value,
                    },
                ),
            ),
            at(j),
        ),
{
}

/// A name that starts with an underscore is an argument of a call that is left open, without a
/// label or with the one that stands before it and a colon. It is located at the name.
pub proof fn a_hole_in_a_call(t: Toks, i: nat, label: Option<Text>, name: Text)
    requires
        labelled(t, i, label),
        is_discard(t, behind_label(i, label), name),
    ensures
        ({
            let j = behind_label(i, label);
            fn_arg(t, at(i)) == found(
                Some(
                    ParserArgView::Hole { location: span(begin(t, j), end(t, j)), label },
                ),
                at(j + 1),
            )
        }),
{
    nothing_else_is_an_expression(t, at(behind_label(i, label)));
}

/// Whether neither form of a record update stands at a position.
pub open spec fn no_update(t: Toks, i: nat) -> bool {
    !is_tok(t, i, Tok::DotDot) && !(is_any_name(t, i) && is_tok(t, i + 1, Tok::DotDot))
}

/// Arguments in parentheses behind an expression call it. More may follow a call, but not an error.
pub proof fn parentheses_behind_an_expression(
    t: Toks,
    j: nat,
    fun: ExprView,
    row: Row<ParserArgView>,
    k: nat,
)
    requires
        is_tok(t, j, Tok::Lpar),
        no_update(t, j + 1),
        listed(t, arg_in(t), Tok::Comma, j + 1, k, row),
        is_tok(t, k, Tok::Rpar),
    ensures
        match call(fun, row.things, fun.location().start, end(t, k)) {
            Ok(whole) => unit_tail(t, at(j), fun) == unit_tail(t, at(k + 1), whole),
            Err(error) => unit_tail(t, at(j), fun) == failed::<ExprView>(
                error,
                at(k + 1),
            ),
        },
{
    lemma_args(t, j + 1, k, row);
    let step = call_or_update(t, at(j + 1), fun);
    assert(step.res == call(fun, row.things, fun.location().start, end(t, k)));
    assert(step.to == at(k + 1));
}

proof fn lemma_args(t: Toks, i: nat, k: nat, row: Row<ParserArgView>)
    requires
        i <= t.len(),
        listed(t, arg_in(t), Tok::Comma, i, k, row),
        is_tok(t, k, Tok::Rpar),
    ensures
        fn_args(t, at(i)) == found(row.things, at(k)),
        i <= k,
{
    let p = fn_arg_from(t, at(i));
    let q = arg_in(t);
    assert forall|d: Cursor| i <= d.at <= t.len() implies #[trigger] p(d) == q(d) && advances(
        t,
        d,
        p(d),
    ) by {
        fn_arg_is_found(t, d);
    }
    lemma_nothing_at(t, k);
    assert(q(at(k)) == found(None::<ParserArgView>, at(k)));
    lemma_listed(t, q, p, Tok::Comma, i, k, row);
}

/// A call of which no argument is left open has these arguments in their order.
pub proof fn a_call_without_holes(
    fun: ExprView,
    args: Seq<CallArgView<ExprView>>,
    start: usize,
    end: usize,
)
    ensures
        call(
            fun,
            args.map_values(|arg: CallArgView<ExprView>| ParserArgView::Arg(arg)),
            start,
            end,
        ) == Ok::<_, ErrorView>(
            ExprView::Call { location: span(start, end), fun: Box::new(fun), args },
        ),
{
    let all = args.map_values(|arg: CallArgView<ExprView>| ParserArgView::Arg(arg));
    assert(forall|i: int| 0 <= i < all.len() ==> !(#[trigger] all[i] is Hole));
    lemma_no_holes(all);
    assert(all.map_values(|arg: ParserArgView| filled(arg)) =~= args);
}

proof fn lemma_no_holes(args: Seq<ParserArgView>)
    requires
        forall|i: int| 0 <= i < args.len() ==> !(#[trigger] args[i] is Hole),
    ensures
        holes(args) == 0,
    decreases args.len(),
{
    reveal(Seq::filter);
    if args.len() > 0 {
        lemma_no_holes(args.drop_last());
    }
}

proof fn lemma_holes_add(a: Seq<ParserArgView>, b: Seq<ParserArgView>)
    ensures
        holes(a + b) == holes(a) + holes(b),
    decreases b.len(),
{
    reveal(Seq::filter);
    if b.len() == 0 {
        assert(a + b =~= a);
    } else {
        lemma_holes_add(a, b.drop_last());
        assert((a + b).drop_last() =~= a + b.drop_last());
    }
}

proof fn lemma_a_hole(location: SrcSpan, label: Option<Text>)
    ensures
        holes(seq![ParserArgView::Hole { location, label }]) == 1,
{
    reveal(Seq::filter);
    let one = seq![ParserArgView::Hole { location, label }];
    assert(one.drop_last() =~= Seq::empty());
    assert(holes(one.drop_last()) == 0);
}

/// A call of which one argument is left open is a function of that argument, which has the name of
/// the captured variable and stands in the place that was left open, with its label and location.
pub proof fn a_call_with_a_hole(
    fun: ExprView,
    before: Seq<CallArgView<ExprView>>,
    location: SrcSpan,
    label: Option<Text>,
    after: Seq<CallArgView<ExprView>>,
    start: usize,
    end: usize,
)
    ensures
        ({
            let plain = |arg: CallArgView<ExprView>| ParserArgView::Arg(arg);
            let args = before.map_values(plain) + seq![
                ParserArgView::Hole { location, label },
            ] + after.map_values(plain);
            let hole = CallArgView {
                label,
                location,
                value: ExprView::Var { location, name: CAPTURE_VARIABLE@ },
            };
            call(fun, args, start, end) == Ok::<_, ErrorView>(
                ExprView::Fn {
                    location: span(start, end),
                    is_capture: true,
                    args: seq![
                        ArgView {
                            names: ArgNamesView::Named { name: CAPTURE_VARIABLE@ },
                            location: span(0, 0),
                            annotation: None,
                        },
                    ],
                    body: Box::new(
                        ExprView::Call {
                            location: span(start, end),
                            fun: Box::new(fun),
                            args: before + seq![hole] + after,
                        },
                    ),
                    return_annotation: None,
                },
            )
        }),
{
    let plain = |arg: CallArgView<ExprView>| ParserArgView::Arg(arg);
    let hole = ParserArgView::Hole { location, label };
    let first = before.map_values(plain);
    let last = after.map_values(plain);
    let args = first + seq![hole] + last;
    assert(forall|i: int| 0 <= i < first.len() ==> !(#[trigger] first[i] is Hole));
    assert(forall|i: int| 0 <= i < last.len() ==> !(#[trigger] last[i] is Hole));
    lemma_no_holes(first);
    lemma_no_holes(last);
    lemma_a_hole(location, label);
    lemma_holes_add(first, seq![hole]);
    lemma_holes_add(first + seq![hole], last);
    let filled_hole = CallArgView {
        label,
        location,
        value: ExprView::Var { location, name: CAPTURE_VARIABLE@ },
    };
    assert(args.map_values(|arg: ParserArgView| filled(arg)) =~= before + seq![
        filled_hole,
    ] + after);
}

/// A call of which two arguments are left open is an error, located at the whole call.
pub proof fn no_call_with_two_holes(
    fun: ExprView,
    args: Seq<ParserArgView>,
    h: int,
    k: int,
    start: usize,
    end: usize,
)
    requires
        0 <= h < k < args.len(),
        args[h] is Hole,
        args[k] is Hole,
    ensures
        call(fun, args, start, end) == error_at::<ExprView>(
            ParseErrorType::TooManyArgHoles,
            span(start, end),
            at(0),
        ).res,
{
    let first = args.take(k);
    let rest = args.skip(k);
    assert(args =~= first + rest);
    lemma_holes_add(first, rest);
    lemma_some_hole(first, h);
    lemma_some_hole(rest, 0);
}

proof fn lemma_some_hole(args: Seq<ParserArgView>, h: int)
    requires
        0 <= h < args.len(),
        args[h] is Hole,
    ensures
        holes(args) >= 1,
    decreases args.len(),
{
    reveal(Seq::filter);
    if h < args.len() - 1 {
        lemma_some_hole(args.drop_last(), h);
    }
}

/// Whether a record that is updated stands at a position, in one of the two forms: its name behind
/// two dots or before them.
pub open spec fn spread_at(t: Toks, i: nat, name: Text) -> bool {
    ||| is_tok(t, i, Tok::DotDot) && is_name(t, i + 1, name)
    ||| is_name(t, i, name) && is_tok(t, i + 1, Tok::DotDot)
}

/// Whether new values for fields stand at a position, behind a comma, or nothing. `k` is the
/// closing parenthesis.
pub open spec fn updates_at(t: Toks, i: nat, row: Row<RecordUpdateArgView>, k: nat) -> bool {
    &&& is_tok(t, k, Tok::Rpar)
    &&& {
        ||| k == i && row.things.len() == 0
        ||| is_tok(t, i, Tok::Comma) && listed(t, update_in(t), Tok::Comma, i + 1, k, row)
    }
}

/// A record that is updated and new values, in parentheses behind an expression, are an update of
/// that record, with the new values in their order. More may follow.
pub proof fn a_record_update(
    t: Toks,
    j: nat,
    expr: ExprView,
    name: Text,
    row: Row<RecordUpdateArgView>,
    k: nat,
)
    requires
        is_tok(t, j, Tok::Lpar),
        spread_at(t, j + 1, name),
        updates_at(t, j + 3, row, k),
    ensures
        unit_tail(t, at(j), expr) == unit_tail(
            t,
            at(k + 1),
            ExprView::RecordUpdate {
                location: span(expr.location().start, end(t, k)),
                constructor: Box::new(expr),
                spread: SpreadView {
                    name,
                    location: span(begin(t, j + 1), end(t, j + 2)),
                },
                args: row.things,
            },
        ),
{
    let spread = SpreadView { name, location: span(begin(t, j + 1), end(t, j + 2)) };
    if k == j + 3 {
        assert(row.things =~= Seq::empty());
    } else {
        lemma_updates(t, j + 4, k, row);
    }
    let step = new_values(t, at(j + 3), expr, spread);
    let whole = ExprView::RecordUpdate {
        location: span(expr.location().start, end(t, k)),
        constructor: Box::new(expr),
        spread,
        args: row.things,
    };
    assert(step == found(whole, at(k + 1)));
    if is_tok(t, j + 1, Tok::DotDot) {
        assert(record_update(t, at(j + 2), expr, begin(t, j + 1)) == step);
    }
    assert(call_or_update(t, at(j + 1), expr) == step);
}

proof fn lemma_updates(t: Toks, i: nat, k: nat, row: Row<RecordUpdateArgView>)
    requires
        i <= t.len(),
        listed(t, update_in(t), Tok::Comma, i, k, row),
        is_tok(t, k, Tok::Rpar),
    ensures
        series(update_arg_from(t, at(i)), t, Some(Tok::Comma), Seq::empty(), at(i)) == found(
            row.things,
            at(k),
        ),
        i <= k,
{
    let p = update_arg_from(t, at(i));
    let q = update_in(t);
    assert forall|d: Cursor| i <= d.at <= t.len() implies #[trigger] p(d) == q(d) && advances(
        t,
        d,
        p(d),
    ) by {
        update_arg_is_found(t, d);
    }
    assert(q(at(k)) == found(None::<RecordUpdateArgView>, at(k)));
    lemma_listed(t, q, p, Tok::Comma, i, k, row);
}

/// A label, a colon and an expression are a new value for the field of that name.
pub proof fn a_new_value(t: Toks, i: nat, label: Text, value: ExprView, j: nat)
    requires
        is_name(t, i, label),
        is_tok(t, i + 1, Tok::Colon),
        expression(t, at(i + 2)) == found(Some(value), at(j)),
    ensures
        update_arg(t, at(i)) == found(
            Some(
                RecordUpdateArgView {
                    label,
                    location: span(begin(t, i), value.location().end),
                    value,
                },
            ),
            at(j),
        ),
{
}

} // verus!
