//! Laws of whole inputs.

use crate::ast::SrcSpan;
use crate::error::{ErrorView, Fault, LexicalError, ParseErrorType};
use crate::grammar::basics::{found, series, span, Step};
use crate::grammar::exprs::{expr_chain, expr_head, expr_unit, expression_seq};
use crate::grammar::modules::{checked, definitions, expression_of, module_of, start};
use crate::grammar::statements::{statement, statement_in};
use crate::laws::places::advances;
use crate::laws::places::statements::statement_is_found;
use crate::laws::rules::{at, in_a_row, lemma_in_a_row, Row};
use crate::model::{ExprView, ModuleView, StatementView};
use crate::stream::{
    extra_of, first_lex_error, lemma_lex_errors_add, lemma_stream_add, lex_errors, peek, read_for,
    stream, Cursor, LexResult, Toks,
};
use crate::token::{is_layout, Spanned, Tok};
use vstd::prelude::*;

verus! {

/// An input without its comments and blank lines.
pub open spec fn without_layout(input: Seq<LexResult>) -> Seq<LexResult>
    decreases input.len(),
{
    if input.len() == 0 {
        Seq::empty()
    } else {
        let rest = without_layout(input.drop_first());
        match input[0] {
            Ok(spanned) => if is_layout(spanned.1) {
                rest
            } else {
                seq![input[0]] + rest
            },
            Err(_) => seq![input[0]] + rest,
        }
    }
}

proof fn lemma_without_layout(input: Seq<LexResult>, count: nat)
    ensures
        stream(without_layout(input)) == stream(input),
        first_lex_error(without_layout(input), count) == first_lex_error(input, count),
    decreases input.len(),
{
    if input.len() > 0 {
        let rest = without_layout(input.drop_first());
        lemma_without_layout(input.drop_first(), count);
        if count > 0 {
            lemma_without_layout(input.drop_first(), (count - 1) as nat);
        }
        assert((seq![input[0]] + rest).drop_first() =~= rest);
    }
}

/// Comments and blank lines have no influence on the tree or on the error that is found, whatever
/// the input is.
pub proof fn layout_is_of_no_account(input: Seq<LexResult>)
    ensures
        module_of(without_layout(input)) == module_of(input),
        expression_of(without_layout(input)) == expression_of(input),
{
    lemma_same_checked(input);
}

proof fn lemma_same_checked(input: Seq<LexResult>)
    ensures
        stream(without_layout(input)) == stream(input),
        forall|count: nat| #[trigger]
            first_lex_error(without_layout(input), count) == first_lex_error(input, count),
{
    lemma_without_layout(input, 0);
    assert forall|count: nat| #[trigger]
        first_lex_error(without_layout(input), count) == first_lex_error(input, count) by {
        lemma_without_layout(input, count);
    }
}

proof fn lemma_no_lex_errors(input: Seq<LexResult>, count: nat)
    requires
        lex_errors(input).len() == 0,
    ensures
        first_lex_error(input, count) is None,
    decreases input.len(),
{
    if input.len() > 0 {
        let head = seq![input[0]];
        let tail = input.drop_first();
        assert(input =~= head + tail);
        lemma_lex_errors_add(head, tail);
        assert(head.drop_last() =~= Seq::empty());
        assert(head.last() == input[0]);
        lemma_no_lex_errors(tail, count);
        if count > 0 {
            lemma_no_lex_errors(tail, (count - 1) as nat);
        }
    }
}

/// Where there are no lexical errors, the tokens alone decide what is found.
pub proof fn tokens_alone_decide(a: Seq<LexResult>, b: Seq<LexResult>)
    requires
        lex_errors(a).len() == 0,
        lex_errors(b).len() == 0,
        stream(a) == stream(b),
    ensures
        module_of(a) == module_of(b),
        expression_of(a) == expression_of(b),
{
    assert forall|count: nat| #[trigger]
        first_lex_error(a, count) is None && first_lex_error(b, count) is None by {
        lemma_no_lex_errors(a, count);
        lemma_no_lex_errors(b, count);
    }
}

/// Errors come in this order: the first lexical error that was met, the error of the parser, and a
/// token that is left over. Without any of them the outcome is what was parsed.
pub proof fn errors_come_in_order<A>(input: Seq<LexResult>, step: Step<A>)
    ensures
        first_lex_error(input, step.to.at + 2) matches Some(error) ==> checked(input, step) == Err::<
            A,
            ErrorView,
        >(
            ErrorView {
                fault: Fault::Plain(ParseErrorType::LexError { error }),
                location: span(error.location, error.location),
            },
        ),
        first_lex_error(input, step.to.at + 2) is None && step.res is Err ==> checked(input, step)
            == step.res,
        first_lex_error(input, step.to.at + 2) is None && step.res is Ok ==> (checked(input, step)
            is Ok <==> peek(stream(input), step.to) is None),
        checked(input, step) is Ok ==> checked(input, step) == step.res,
{
}

/// Whether an item of an input is a token of a kind.
pub open spec fn is_kind(kind: Tok) -> spec_fn(LexResult) -> bool {
    |item: LexResult| item matches Ok((_, tok, _)) && tok == kind
}

/// Where an item of an input is located.
pub open spec fn located(item: LexResult) -> SrcSpan {
    match item {
        Ok((start, _, end)) => span(start, end),
        Err(error) => span(error.location, error.location),
    }
}

/// Where the tokens of a kind in an input are located, in their order.
pub open spec fn all_located(input: Seq<LexResult>, kind: Tok) -> Seq<SrcSpan> {
    input.filter(is_kind(kind)).map_values(|item: LexResult| located(item))
}

/// Where the tokens of a kind in an input start, in their order.
pub open spec fn all_starts(input: Seq<LexResult>, kind: Tok) -> Seq<usize> {
    input.filter(is_kind(kind)).map_values(|item: LexResult| located(item).start)
}

/// What is gathered from an input is where each comment of the three kinds is located and where
/// each blank line starts, all of them and in their order.
pub proof fn all_layout_is_gathered(input: Seq<LexResult>)
    ensures
        extra_of(input).module_comments == all_located(input, Tok::CommentModule),
        extra_of(input).doc_comments == all_located(input, Tok::CommentDoc),
        extra_of(input).comments == all_located(input, Tok::CommentNormal),
        extra_of(input).empty_lines == all_starts(input, Tok::EmptyLine),
    decreases input.len(),
{
    reveal(Seq::filter);
    if input.len() > 0 {
        all_layout_is_gathered(input.drop_last());
    }
    assert(extra_of(input).module_comments =~= all_located(input, Tok::CommentModule));
    assert(extra_of(input).doc_comments =~= all_located(input, Tok::CommentDoc));
    assert(extra_of(input).comments =~= all_located(input, Tok::CommentNormal));
    assert(extra_of(input).empty_lines =~= all_starts(input, Tok::EmptyLine));
}

/// What is gathered from two inputs in a row is what is gathered from the first followed by what is
/// gathered from the second.
pub proof fn layout_is_gathered_in_order(a: Seq<LexResult>, b: Seq<LexResult>)
    ensures
        extra_of(a + b).module_comments == extra_of(a).module_comments + extra_of(
            b,
        ).module_comments,
        extra_of(a + b).doc_comments == extra_of(a).doc_comments + extra_of(b).doc_comments,
        extra_of(a + b).comments == extra_of(a).comments + extra_of(b).comments,
        extra_of(a + b).empty_lines == extra_of(a).empty_lines + extra_of(b).empty_lines,
    decreases b.len(),
{
    if b.len() == 0 {
        assert(a + b =~= a);
    } else {
        layout_is_gathered_in_order(a, b.drop_last());
        assert((a + b).drop_last() =~= a + b.drop_last());
        assert((a + b).last() == b.last());
    }
    assert(extra_of(a + b).module_comments =~= extra_of(a).module_comments + extra_of(
        b,
    ).module_comments);
    assert(extra_of(a + b).doc_comments =~= extra_of(a).doc_comments + extra_of(b).doc_comments);
    assert(extra_of(a + b).comments =~= extra_of(a).comments + extra_of(b).comments);
    assert(extra_of(a + b).empty_lines =~= extra_of(a).empty_lines + extra_of(b).empty_lines);
}

/// Whether an item of an input is neither a comment nor a blank line.
pub open spec fn is_no_layout() -> spec_fn(LexResult) -> bool {
    |item: LexResult|
        !(item matches Ok(
            (_, Tok::CommentNormal | Tok::CommentDoc | Tok::CommentModule | Tok::EmptyLine, _),
        ))
}

/// The token that an item of an input is, none at a lexical error.
pub open spec fn token_of(item: LexResult) -> Option<Spanned> {
    match item {
        Ok(spanned) => Some(spanned),
        Err(_) => None,
    }
}

/// The tokens of an input are all its items but comments and blank lines, in their order, with a
/// gap at each lexical error.
pub proof fn all_other_items_are_tokens(input: Seq<LexResult>)
    ensures
        stream(input) == input.filter(is_no_layout()).map_values(
            |item: LexResult| token_of(item),
        ),
    decreases input.len(),
{
    reveal(Seq::filter);
    let tokens = input.filter(is_no_layout()).map_values(|item: LexResult| token_of(item));
    if input.len() > 0 {
        let before = input.drop_last();
        let last = seq![input.last()];
        all_other_items_are_tokens(before);
        assert(input =~= before + last);
        lemma_stream_add(before, last);
        assert(last.drop_first() =~= Seq::empty());
        assert(stream(last.drop_first()) =~= Seq::empty());
        assert(stream(input) =~= tokens);
    } else {
        assert(stream(input) =~= tokens);
    }
}

/// The lexical errors of an input are all errors among its items, in their order.
pub proof fn all_errors_are_lexical_errors(input: Seq<LexResult>)
    ensures
        lex_errors(input) == input.filter(|item: LexResult| item is Err).map_values(
            |item: LexResult| item->Err_0,
        ),
    decreases input.len(),
{
    reveal(Seq::filter);
    let errors = input.filter(|item: LexResult| item is Err).map_values(
        |item: LexResult| item->Err_0,
    );
    if input.len() > 0 {
        all_errors_are_lexical_errors(input.drop_last());
    }
    assert(lex_errors(input) =~= errors);
}

/// A module is its definitions, one directly behind the other, if they reach up to the end of an
/// input without lexical errors.
pub proof fn a_module_is_its_definitions(input: Seq<LexResult>, row: Row<StatementView>)
    requires
        in_a_row(statement_in(stream(input)), 0, stream(input).len(), row),
        forall|i: int| 0 <= i < input.len() ==> (#[trigger] input[i]) is Ok,
    ensures
        module_of(input) == Ok::<_, ErrorView>(
            ModuleView {
                name: Seq::empty(),
                documentation: Seq::empty(),
                statements: row.things,
            },
        ),
{
    let t = stream(input);
    let p = statement_in(t);
    assert forall|d: Cursor| 0 <= d.at <= t.len() implies #[trigger] p(d) == p(d) && advances(
        t,
        d,
        p(d),
    ) by {
        statement_is_found(t, d);
    }
    assert(p(at(t.len())) == found(None::<StatementView>, at(t.len()))) by {
        reveal(statement);
    }
    assert(row.things.take(0) =~= Seq::empty());
    lemma_in_a_row(t, p, p, 0, t.len(), row, 0);
    lemma_no_error(input, t.len() + 2);
}

/// A sequence of expressions is what an input stands for, if it reaches up to the end of an input
/// without lexical errors.
pub proof fn an_input_is_its_sequence(input: Seq<LexResult>, expr: ExprView, end: usize)
    requires
        expression_seq(stream(input), at(0)) == found(Some((expr, end)), at(stream(input).len())),
        forall|i: int| 0 <= i < input.len() ==> (#[trigger] input[i]) is Ok,
    ensures
        expression_of(input) == Ok::<_, ErrorView>(expr),
{
    lemma_no_error(input, stream(input).len() + 2);
}

proof fn lemma_no_error(input: Seq<LexResult>, count: nat)
    requires
        forall|i: int| 0 <= i < input.len() ==> (#[trigger] input[i]) is Ok,
    ensures
        first_lex_error(input, count) is None,
    decreases input.len(),
{
    if input.len() > 0 && count > 0 {
        let rest = input.drop_first();
        assert forall|i: int| 0 <= i < rest.len() implies (#[trigger] rest[i]) is Ok by {
            assert(rest[i] == input[i + 1]);
        }
        assert(input[0] is Ok);
        lemma_no_error(rest, count);
        lemma_no_error(rest, (count - 1) as nat);
    }
}

/// The lexical error that comes first in an input is met if fewer tokens stand before it than are
/// counted.
pub proof fn the_first_lexical_error_is_met(input: Seq<LexResult>, i: int, count: nat)
    requires
        0 <= i < input.len(),
        forall|j: int| 0 <= j < i ==> (#[trigger] input[j]) is Ok,
        input[i] is Err,
    ensures
        first_lex_error(input, count) == if stream(input.take(i)).len() < count {
            Some(input[i]->Err_0)
        } else {
            None
        },
    decreases i,
{
    if i > 0 {
        let rest = input.drop_first();
        assert forall|j: int| 0 <= j < i - 1 implies (#[trigger] rest[j]) is Ok by {
            assert(rest[j] == input[j + 1]);
        }
        assert(input[0] is Ok);
        assert(rest[i - 1] == input[i]);
        assert(input.take(i).drop_first() =~= rest.take(i - 1));
        the_first_lexical_error_is_met(rest, i - 1, count);
        if count > 0 {
            the_first_lexical_error_is_met(rest, i - 1, (count - 1) as nat);
        }
    } else {
        assert(input.take(0) =~= Seq::empty());
    }
}

/// A lexical error is the error of an input before all others, if it has been met: located where it
/// is.
pub proof fn a_lexical_error_decides(input: Seq<LexResult>, i: int)
    requires
        0 <= i < input.len(),
        forall|j: int| 0 <= j < i ==> (#[trigger] input[j]) is Ok,
        input[i] is Err,
    ensures
        stream(input.take(i)).len() < definitions(stream(input), start()).to.at + 2 ==> module_of(
            input,
        ) == Err::<ModuleView, _>(lexical(input[i]->Err_0)),
        stream(input.take(i)).len() < expression_seq(stream(input), start()).to.at + 2
            ==> expression_of(input) == Err::<ExprView, _>(lexical(input[i]->Err_0)),
{
    let t = stream(input);
    the_first_lexical_error_is_met(input, i, definitions(t, start()).to.at + 2);
    the_first_lexical_error_is_met(input, i, expression_seq(t, start()).to.at + 2);
}

/// The error that a lexical error leads to.
pub open spec fn lexical(error: LexicalError) -> ErrorView {
    ErrorView {
        fault: Fault::Plain(ParseErrorType::LexError { error }),
        location: span(error.location, error.location),
    }
}

proof fn lemma_row_and_rest<A>(
    t: Toks,
    p: spec_fn(Cursor) -> Step<Option<A>>,
    close: nat,
    row: Row<A>,
    k: int,
)
    requires
        in_a_row(p, 0, close, row),
        forall|d: Cursor| 0 <= d.at <= t.len() ==> advances(t, d, #[trigger] p(d)),
        0 <= k < row.things.len(),
        row.starts[k] <= t.len(),
    ensures
        series(p, t, None, row.things.take(k), at(row.starts[k])) == series(
            p,
            t,
            None,
            row.things,
            at(close),
        ),
        close <= t.len(),
    decreases row.things.len() - k,
{
    let thing = row.things[k];
    let here = at(row.starts[k]);
    assert(p(here) == found(Some(row.things[k]), at(row.stops[k])));
    assert(advances(t, here, p(here)));
    assert(row.things.take(k).push(row.things[k]) =~= row.things.take(k + 1));
    if k + 1 < row.things.len() {
        lemma_row_and_rest(t, p, close, row, k + 1);
    } else {
        assert(row.things.take(k + 1) =~= row.things);
    }
}

proof fn lemma_definitions(input: Seq<LexResult>, row: Row<StatementView>, k: nat)
    requires
        in_a_row(statement_in(stream(input)), 0, k, row),
    ensures
        ({
            let t = stream(input);
            let all = series(statement_in(t), t, None, Seq::empty(), at(0));
            &&& all == series(statement_in(t), t, None, row.things, at(k))
            &&& k <= t.len()
        }),
{
    let t = stream(input);
    let p = statement_in(t);
    assert forall|d: Cursor| 0 <= d.at <= t.len() implies advances(t, d, #[trigger] p(d)) by {
        statement_is_found(t, d);
    }
    assert(row.things.take(0) =~= Seq::empty());
    if row.things.len() > 0 {
        lemma_row_and_rest(t, p, k, row, 0);
    } else {
        assert(row.things =~= Seq::empty());
    }
}

/// An error in a definition is the error of an input without lexical errors, whatever definitions
/// stand before it.
pub proof fn an_error_in_a_definition(
    input: Seq<LexResult>,
    row: Row<StatementView>,
    k: nat,
    error: ErrorView,
)
    requires
        in_a_row(statement_in(stream(input)), 0, k, row),
        statement(stream(input), at(k)).res == Err::<Option<StatementView>, _>(error),
        forall|i: int| 0 <= i < input.len() ==> (#[trigger] input[i]) is Ok,
    ensures
        module_of(input) == Err::<ModuleView, _>(error),
{
    lemma_definitions(input, row, k);
    lemma_no_error(input, definitions(stream(input), start()).to.at + 2);
}

/// A token that no definition starts with is an error where a definition may follow, whatever
/// definitions stand before it.
pub proof fn a_token_without_a_definition(
    input: Seq<LexResult>,
    row: Row<StatementView>,
    k: nat,
    token: Spanned,
)
    requires
        in_a_row(statement_in(stream(input)), 0, k, row),
        statement(stream(input), at(k)) == found(None::<StatementView>, at(k)),
        k < stream(input).len(),
        stream(input)[k as int] == Some(token),
        forall|i: int| 0 <= i < input.len() ==> (#[trigger] input[i]) is Ok,
    ensures
        module_of(input) == Err::<ModuleView, _>(left_over(token)),
{
    lemma_definitions(input, row, k);
    lemma_no_error(input, k + 2);
}

/// The error that a token is left over.
pub open spec fn left_over(token: Spanned) -> ErrorView {
    ErrorView {
        fault: Fault::Expected(seq!["An import, const, type, or function."@]),
        location: span(token.0, token.2),
    }
}

/// Of an input without lexical errors that is no sequence of expressions: an error in the sequence
/// is that of the input, a token behind the sequence is an error, and so is an input without
/// anything in it.
pub proof fn what_is_no_sequence(input: Seq<LexResult>, error: ErrorView, k: nat, token: Spanned)
    requires
        forall|i: int| 0 <= i < input.len() ==> (#[trigger] input[i]) is Ok,
    ensures
        ({
            let t = stream(input);
            let step = expression_seq(t, at(0));
            &&& step.res == Err::<Option<(ExprView, usize)>, _>(error) ==> expression_of(input)
                == Err::<ExprView, _>(error)
            &&& step.res is Ok && step.to == at(k) && k < t.len() && t[k as int] == Some(token)
                ==> expression_of(input) == Err::<ExprView, _>(left_over(token))
            &&& t.len() == 0 ==> expression_of(input) == Err::<ExprView, _>(
                ErrorView {
                    fault: Fault::Plain(ParseErrorType::ExpectedExpr),
                    location: SrcSpan { start: 0, end: 0 },
                },
            )
        }),
{
    let t = stream(input);
    lemma_no_error(input, expression_seq(t, start()).to.at + 2);
    if t.len() == 0 {
        assert(expr_head(t, at(0)) == found(None::<ExprView>, at(0)));
        assert(expr_unit(t, at(0)) == found(None::<ExprView>, at(0)));
        assert(expr_chain(t, at(0), Seq::empty(), Seq::empty()) == found(None::<ExprView>, at(0)));
        assert(expression_seq(t, at(0)) == found(None::<(ExprView, usize)>, at(0)));
    }
}

/// To get a number of tokens, an input is read up to the last of them and no further, or to its end
/// if there are fewer. A gap at a lexical error counts as a token.
pub proof fn how_far_is_read(input: Seq<LexResult>, count: nat)
    ensures
        ({
            let n = read_for(input, count) as int;
            let all = stream(input).len();
            &&& n <= input.len()
            &&& all < count ==> n == input.len()
            &&& all >= count ==> stream(input.take(n)).len() == count
            &&& all >= count && n > 0 ==> stream(input.take(n - 1)).len() == count - 1
        }),
    decreases input.len(),
{
    let n = read_for(input, count) as int;
    if input.len() == 0 || count == 0 {
        assert(input.take(n) =~= Seq::empty());
    } else {
        let rest = input.drop_first();
        let counts = match input[0] {
            Ok(spanned) => !is_layout(spanned.1),
            Err(_) => true,
        };
        let left = if counts {
            (count - 1) as nat
        } else {
            count
        };
        how_far_is_read(rest, left);
        assert(input.take(n).drop_first() =~= rest.take(n - 1));
        assert(stream(rest).len() + if counts {
            1nat
        } else {
            0nat
        } == stream(input).len());
        if n > 1 {
            assert(input.take(n - 1).drop_first() =~= rest.take(n - 2));
        } else {
            assert(input.take(n - 1) =~= Seq::empty());
            assert(rest.take(0) =~= Seq::empty());
        }
    }
}

} // verus!
