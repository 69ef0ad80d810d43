//! The rules of what is missing: which error comes where a part of a tree has to follow and does
//! not.

use crate::ast::{BindingKind, SrcSpan};
use crate::error::{ErrorView, Fault, ParseErrorType};
use crate::grammar::basics::{error_at, found, nothing, span};
use crate::grammar::constants::{const_int, const_record_arg, const_value};
use crate::grammar::exprs::{
    binding, expect_expression, expression, expression_seq, field_access, fn_head, function,
    unit_tail, update_arg,
};

use crate::grammar::patterns::{pattern, pattern_segment_arg};
use crate::grammar::statements::{
    external_fn_param, import, import_path, statement, type_constructor_arg,
};
use crate::grammar::types::{ty, type_annotation};
use crate::laws::places::exprs::expression_is_found;
use crate::laws::places::patterns::pattern_is_found;
use crate::laws::places::types::type_is_found;
use crate::laws::rules::{at, begin, end, is_name, is_tok};
use crate::laws::rules::sequences::binds;
use crate::laws::rules::tokens::span_at;
use crate::model::{
    CallArgView, ConstantView, ExprView, ExternalFnArgView, PatternView, RecordConstructorArgView,
    RecordUpdateArgView, StatementView, Text, TypeView,
};
use crate::stream::Toks;
use crate::token::Tok;
use vstd::prelude::*;

verus! {

/// The error that the token at a position is none of those expected, or that the input ends there.
pub open spec fn unexpected_at(t: Toks, i: nat, expected: Seq<Text>) -> ErrorView {
    if i < t.len() && t[i as int] is Some {
        ErrorView { fault: Fault::Expected(expected), location: span_at(t, i) }
    } else {
        ErrorView {
            fault: Fault::Plain(ParseErrorType::UnexpectedEOF),
            location: SrcSpan { start: 0, end: 0 },
        }
    }
}

/// Behind a label and a colon a type has to follow, in the parameters of an external function as in
/// the arguments of a constructor. The error is located behind the colon in the one case, and at
/// the label and the colon in the other.
pub proof fn a_label_needs_a_type(t: Toks, i: nat, label: Text)
    requires
        is_name(t, i, label),
        is_tok(t, i + 1, Tok::Colon),
        nothing(ty(t, at(i + 2), false)),
    ensures
        external_fn_param(t, at(i)) == error_at::<Option<ExternalFnArgView>>(
            ParseErrorType::ExpectedType,
            span(end(t, i + 1), end(t, i + 1)),
            at(i + 2),
        ),
        type_constructor_arg(t, at(i)) == error_at::<Option<RecordConstructorArgView>>(
            ParseErrorType::ExpectedType,
            span(begin(t, i), end(t, i + 1)),
            at(i + 2),
        ),
{
    type_is_found(t, at(i + 2), false);
}

/// Behind the token that announces it a type has to follow.
pub proof fn an_announced_type_is_needed(t: Toks, i: nat, tok: Tok, for_const: bool)
    requires
        is_tok(t, i, tok),
        nothing(ty(t, at(i + 1), for_const)),
    ensures
        type_annotation(t, at(i), tok, for_const) == error_at::<Option<TypeView>>(
            ParseErrorType::ExpectedType,
            span(begin(t, i), end(t, i)),
            at(i + 1),
        ),
{
    type_is_found(t, at(i + 1), for_const);
}

/// Behind a label and a colon a constant has to follow.
pub proof fn a_label_needs_a_constant(t: Toks, i: nat, label: Text)
    requires
        is_name(t, i, label),
        is_tok(t, i + 1, Tok::Colon),
        const_value(t, at(i + 2)) == found(None::<ConstantView>, at(i + 2)),
    ensures
        const_record_arg(t, at(i)).res == Err::<Option<CallArgView<ConstantView>>, _>(
            unexpected_at(t, i + 2, seq!["a constant value"@]),
        ),
{
}

/// Behind a label and a colon a new value has to follow.
pub proof fn a_label_needs_a_new_value(t: Toks, i: nat, label: Text)
    requires
        is_name(t, i, label),
        is_tok(t, i + 1, Tok::Colon),
        nothing(expression(t, at(i + 2))),
    ensures
        update_arg(t, at(i)).res == Err::<Option<RecordUpdateArgView>, _>(
            unexpected_at(t, i + 2, seq!["An expression"@]),
        ),
{
    expression_is_found(t, at(i + 2));
}

/// Where an expression is needed, its absence is an error at the next token.
pub proof fn an_expression_is_needed(t: Toks, i: nat)
    requires
        i <= t.len(),
        nothing(expression(t, at(i))),
    ensures
        expect_expression(t, at(i)).res == Err::<ExprView, _>(
            unexpected_at(t, i, seq!["An expression"@]),
        ),
{
    expression_is_found(t, at(i));
}

/// Behind a dot a number or a name has to follow.
pub proof fn a_dot_needs_a_number_or_a_name(t: Toks, j: nat, expr: ExprView)
    requires
        is_tok(t, j, Tok::Dot),
        j + 1 < t.len() ==> !(t[j + 1int] matches Some(
            (_, Tok::Int { .. } | Tok::Name { .. } | Tok::UpName { .. }, _),
        )),
    ensures
        unit_tail(t, at(j), expr).res == Err::<ExprView, _>(
            unexpected_at(t, j + 1, seq!["A positive integer or a field name."@]),
        ),
{
    let step = field_access(t, at(j + 1), expr);
    assert(step.res is Err);
}

/// Behind the keyword of a binding a pattern has to follow.
pub proof fn a_binding_needs_a_pattern(t: Toks, i: nat, kind: BindingKind)
    requires
        binds(t, i, kind),
        nothing(pattern(t, at(i + 1))),
    ensures
        expression_seq(t, at(i)).res == Err::<Option<(ExprView, usize)>, _>(
            unexpected_at(
                t,
                i + 1,
                seq!["A pattern"@, "See: https://gleam.run/book/tour/patterns"@],
            ),
        ),
{
    pattern_is_found(t, at(i + 1));
    let step = binding(t, at(i + 1), begin(t, i), kind);
    assert(step.res is Err);
}

/// Behind `pub external` either `type` or `fn` has to follow. The error is that at the token
/// behind.
pub proof fn external_needs_a_kind(t: Toks, i: nat)
    requires
        is_tok(t, i, Tok::Pub),
        is_tok(t, i + 1, Tok::External),
        i + 2 < t.len(),
        !is_tok(t, i + 2, Tok::Type),
        !is_tok(t, i + 2, Tok::Fn),
    ensures
        statement(t, at(i)).res == Err::<Option<StatementView>, _>(
            unexpected_at(t, i + 3, seq!["A type or function definition"@]),
        ),
{
    reveal(statement);
}

/// A path of an import does not end with a slash: before a dot the name is missing that was
/// expected behind the slash.
pub proof fn no_slash_before_a_dot(t: Toks, i: nat, name: Text)
    requires
        is_tok(t, i, Tok::Import),
        is_name(t, i + 1, name),
        is_tok(t, i + 2, Tok::SlashDot),
    ensures
        ({
            let behind = (begin(t, i + 2) + 1) as usize;
            statement(t, at(i)) == error_at::<Option<StatementView>>(
                ParseErrorType::ExpectedName,
                span(behind, behind),
                at(i + 3),
            )
        }),
{
    reveal(statement);
    reveal(import);
    let step = import_path(t, at(i + 1), 0, Seq::empty());
    assert(step.res is Err);
}

/// The argument of an option of a segment is a number, in a pattern also a variable. The error in
/// its absence is that at the token behind.
pub proof fn an_option_needs_an_argument(t: Toks, i: nat)
    requires
        i < t.len(),
        !(t[i as int] matches Some((_, Tok::Int { .. }, _))),
    ensures
        const_int(t, at(i)).res == Err::<ConstantView, _>(
            unexpected_at(t, i + 1, seq!["A variable name or an integer"@]),
        ),
        !(t[i as int] matches Some((_, Tok::Name { .. }, _))) ==> pattern_segment_arg(
            t,
            at(i),
        ).res == Err::<PatternView, _>(
            unexpected_at(t, i + 1, seq!["A variable name or an integer"@]),
        ),
{
}

/// A function needs a body.
pub proof fn a_function_needs_a_body(
    t: Toks,
    i: nat,
    j: nat,
    start: usize,
    public: bool,
    name: Text,
)
    requires
        is_name(t, i, name),
        fn_head(t, at(i + 1)).res is Ok,
        fn_head(t, at(i + 1)).to == at(j),
        i <= j <= t.len(),
        expression_seq(t, at(j)) == found(None::<(ExprView, usize)>, at(j)),
    ensures
        function(t, at(i), start, public, false).res == Err::<Option<StatementView>, _>(
            unexpected_at(t, j, seq!["The body of a function"@]),
        ),
{
}

} // verus!
