//! The rules of functions.

use crate::grammar::basics::{found, span};
use crate::grammar::exprs::{
    expr_head, expression_seq, fn_expr, fn_head, fn_param, fn_param_in, function,
};
use crate::grammar::statements::statement;
use crate::grammar::types::type_annotation;
use crate::laws::places::advances;
use crate::laws::places::exprs::fn_param_is_found;
use crate::laws::places::types::type_annotation_is_found;
use crate::laws::rules::{
    annotated, at, begin, end, is_any_name, is_discard, is_name, is_tok, lemma_listed, listed, Row,
};
use crate::laws::rules::statements::keyword;
use crate::model::{ArgNamesView, ArgView, ExprView, StatementView, Text, TypeView};
use crate::stream::{Cursor, Toks};
use crate::token::Tok;
use vstd::prelude::*;

verus! {

/// Whether any name that starts with an underscore stands at a position.
pub open spec fn is_any_discard(t: Toks, i: nat) -> bool {
    &&& i < t.len()
    &&& t[i as int] matches Some((_, Tok::DiscardName { .. }, _))
}

/// Whether the names of a parameter stand at a position, up to another: a name, or one that starts
/// with an underscore, which may have a label before it.
pub open spec fn param_named(t: Toks, i: nat, names: ArgNamesView, j: nat) -> bool {
    match names {
        ArgNamesView::Discard { name } => is_discard(t, i, name) && j == i + 1,
        ArgNamesView::LabelledDiscard { label, name } => is_name(t, i, label) && is_discard(
            t,
            i + 1,
            name,
        ) && j == i + 2,
        ArgNamesView::Named { name } => is_name(t, i, name) && !is_any_name(t, i + 1)
            && !is_any_discard(t, i + 1) && j == i + 1,
        ArgNamesView::NamedLabelled { name, label } => is_name(t, i, label) && is_name(
            t,
            i + 1,
            name,
        ) && j == i + 2,
    }
}

/// The names of a parameter, with the type that stands behind a colon if there is one, are a
/// parameter.
pub proof fn a_parameter(
    t: Toks,
    i: nat,
    names: ArgNamesView,
    j: nat,
    annotation: Option<TypeView>,
    k: nat,
)
    requires
        param_named(t, i, names, j),
        annotated(t, j, Tok::Colon, false, annotation, k),
    ensures
        fn_param(t, at(i)) == found(
            Some(
                ArgView {
                    names,
                    location: span(
                        begin(t, i),
                        match annotation {
                            Some(typ) => typ.location().end,
                            None => end(t, (j - 1) as nat),
                        },
                    ),
                    annotation,
                },
            ),
            at(k),
        ),
{
}

/// Whether the head of a function stands at a position, up to another: parameters in parentheses, a
/// type behind an arrow if there is one, and the opening brace. `k` is the closing parenthesis.
pub open spec fn function_head(
    t: Toks,
    i: nat,
    row: Row<ArgView>,
    k: nat,
    retrn: Option<TypeView>,
    j: nat,
) -> bool {
    &&& is_tok(t, i, Tok::Lpar)
    &&& listed(t, fn_param_in(t), Tok::Comma, i + 1, k, row)
    &&& is_tok(t, k, Tok::Rpar)
    &&& j > 0
    &&& annotated(t, k + 1, Tok::RArrow, false, retrn, (j - 1) as nat)
    &&& is_tok(t, (j - 1) as nat, Tok::Lbrace)
}

proof fn lemma_head(t: Toks, i: nat, row: Row<ArgView>, k: nat, retrn: Option<TypeView>, j: nat)
    requires
        function_head(t, i, row, k, retrn, j),
    ensures
        fn_head(t, at(i)) == found((row.things, end(t, k), retrn), at(j)),
        i < j <= t.len(),
{
    let p = fn_param_in(t);
    assert forall|d: Cursor| i + 1 <= d.at <= t.len() implies #[trigger] p(d) == p(d) && advances(
        t,
        d,
        p(d),
    ) by {
        fn_param_is_found(t, d);
    }
    assert(p(at(k)) == found(None::<ArgView>, at(k)));
    lemma_listed(t, p, p, Tok::Comma, i + 1, k, row);
    let typ = type_annotation(t, at(k + 1), Tok::RArrow, false);
    assert(typ == found(retrn, at((j - 1) as nat)));
    type_annotation_is_found(t, at(k + 1), Tok::RArrow, false);
    reveal(fn_head);
}

/// `fn`, a name, parameters, and a sequence in braces are a function with these parameters, that
/// sequence as its body, and the type that stands behind an arrow as what it returns. It is located
/// up to that type or else to the parenthesis behind its parameters, and ends before its closing
/// brace. It is public behind `pub`.
pub proof fn a_function(
    t: Toks,
    i: nat,
    public: bool,
    name: Text,
    row: Row<ArgView>,
    k: nat,
    retrn: Option<TypeView>,
    j: nat,
    body: ExprView,
    stop: usize,
    m: nat,
)
    requires
        public ==> is_tok(t, i, Tok::Pub),
        is_tok(t, keyword(i, public), Tok::Fn),
        is_name(t, keyword(i, public) + 1, name),
        function_head(t, keyword(i, public) + 2, row, k, retrn, j),
        expression_seq(t, at(j)) == found(Some((body, stop)), at(m)),
        is_tok(t, m, Tok::Rbrace),
    ensures
        statement(t, at(i)) == found(
            Some(
                StatementView::Fn {
                    location: span(
                        begin(t, i),
                        match retrn {
                            Some(typ) => typ.location().end,
                            None => end(t, k),
                        },
                    ),
                    end_location: (end(t, m) - 1) as usize,
                    name,
                    args: row.things,
                    body,
                    public,
                    return_annotation: retrn,
                    doc: None,
                },
            ),
            at(m + 1),
        ),
{
    let key = keyword(i, public);
    lemma_head(t, key + 2, row, k, retrn, j);
    let step = function(t, at(key + 1), begin(t, i), public, false);
    assert(step.res is Ok);
    assert(statement(t, at(i)) == step) by {
        reveal(statement);
    }
}

/// `fn`, parameters, and a sequence in braces are an anonymous function with these parameters, that
/// sequence as its body, and the type that stands behind an arrow as what it returns. It is located
/// up to that type or else to its closing brace.
pub proof fn an_anonymous_function(
    t: Toks,
    i: nat,
    row: Row<ArgView>,
    k: nat,
    retrn: Option<TypeView>,
    j: nat,
    body: ExprView,
    stop: usize,
    m: nat,
)
    requires
        is_tok(t, i, Tok::Fn),
        function_head(t, i + 1, row, k, retrn, j),
        expression_seq(t, at(j)) == found(Some((body, stop)), at(m)),
        is_tok(t, m, Tok::Rbrace),
    ensures
        expr_head(t, at(i)) == found(
            Some(
                ExprView::Fn {
                    location: span(
                        begin(t, i),
                        match retrn {
                            Some(typ) => typ.location().end,
                            None => end(t, m),
                        },
                    ),
                    is_capture: false,
                    args: row.things,
                    body: Box::new(body),
                    return_annotation: retrn,
                },
            ),
            at(m + 1),
        ),
{
    lemma_head(t, i + 1, row, k, retrn, j);
    let step = function(t, at(i + 1), begin(t, i), false, true);
    assert(step.res is Ok);
    assert(fn_expr(t, at(i + 1), begin(t, i)).res is Ok);
}

} // verus!
