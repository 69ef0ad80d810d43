//! What functions need.

use crate::error::ErrorView;
use crate::grammar::basics::{expect_name, series};
use crate::grammar::exprs::{
    expr_head, expression_seq, fn_expr, fn_head, fn_param, fn_param_in, function,
};
use crate::grammar::types::type_annotation;
use crate::laws::needs::{lacks, lemma_lacks, needs, passes_on, stops};
use crate::laws::places::exprs::{expression_seq_is_found, fn_head_moves};
use crate::laws::rules::{at, begin, is_name, is_tok};
use crate::laws::rules::functions::param_named;
use crate::model::{ArgNamesView, ExprView, Text};
use crate::stream::Toks;
use crate::token::Tok;
use vstd::prelude::*;

verus! {

/// The head of a function needs parameters in parentheses and an opening brace. An error in a
/// parameter or in the type is passed on.
pub proof fn what_the_head_of_a_function_needs(t: Toks, i: nat, k: nat, m: nat)
    ensures
        ({
            let whole = fn_head(t, at(i));
            let params = series(fn_param_in(t), t, Some(Tok::Comma), Seq::empty(), at(i + 1));
            let typ = type_annotation(t, at(k + 1), Tok::RArrow, false);
            &&& !is_tok(t, i, Tok::Lpar) ==> lacks(whole, t, i, Tok::Lpar)
            &&& is_tok(t, i, Tok::Lpar) ==> needs(whole, params, t, k, Tok::Rpar)
            &&& is_tok(t, i, Tok::Lpar) && stops(params, k) && is_tok(t, k, Tok::Rpar) ==> needs(
                whole,
                typ,
                t,
                m,
                Tok::Lbrace,
            )
        }),
{
    reveal(fn_head);
    lemma_lacks(t, i, Tok::Lpar);
    lemma_lacks(t, k, Tok::Rpar);
    lemma_lacks(t, m, Tok::Lbrace);
}

/// A function needs a name and a closing brace behind its body. An error in its head or its body is
/// passed on.
pub proof fn what_a_function_needs(
    t: Toks,
    i: nat,
    start: usize,
    public: bool,
    name: Text,
    j: nat,
    k: nat,
)
    requires
        i <= t.len(),
    ensures
        ({
            let whole = function(t, at(i), start, public, false);
            let head = fn_head(t, at(i + 1));
            let body = expression_seq(t, at(j));
            &&& passes_on(whole, expect_name(t, at(i)))
            &&& is_name(t, i, name) ==> passes_on(whole, head)
            &&& is_name(t, i, name) && stops(head, j) ==> passes_on(whole, body)
            &&& is_name(t, i, name) && stops(head, j) && stops(body, k) && body.res != Ok::<
                Option<(ExprView, usize)>,
                ErrorView,
            >(None) && !is_tok(t, k, Tok::Rbrace) ==> lacks(whole, t, k, Tok::Rbrace)
        }),
{
    lemma_lacks(t, k, Tok::Rbrace);
    if is_name(t, i, name) {
        fn_head_moves(t, at(i + 1));
        if stops(fn_head(t, at(i + 1)), j) {
            expression_seq_is_found(t, at(j));
        }
    }
}

/// An anonymous function needs what a function needs, but for the name.
pub proof fn what_an_anonymous_function_needs(t: Toks, i: nat, j: nat, k: nat)
    requires
        is_tok(t, i, Tok::Fn),
    ensures
        ({
            let whole = expr_head(t, at(i));
            let head = fn_head(t, at(i + 1));
            let body = expression_seq(t, at(j));
            &&& passes_on(whole, head)
            &&& stops(head, j) ==> passes_on(whole, body)
            &&& stops(head, j) && stops(body, k) && body.res != Ok::<
                Option<(ExprView, usize)>,
                ErrorView,
            >(None) && !is_tok(t, k, Tok::Rbrace) ==> lacks(whole, t, k, Tok::Rbrace)
        }),
{
    lemma_lacks(t, k, Tok::Rbrace);
    fn_head_moves(t, at(i + 1));
    if stops(fn_head(t, at(i + 1)), j) {
        expression_seq_is_found(t, at(j));
    }
    let fun = function(t, at(i + 1), begin(t, i), false, true);
    let step = fn_expr(t, at(i + 1), begin(t, i));
    assert(passes_on(step, fun));
    assert(step.res is Err ==> expr_head(t, at(i)).res is Err);
}

/// An error in the type of a parameter is passed on.
pub proof fn what_a_parameter_needs(t: Toks, i: nat, names: ArgNamesView, j: nat)
    requires
        param_named(t, i, names, j),
    ensures
        passes_on(fn_param(t, at(i)), type_annotation(t, at(j), Tok::Colon, false)),
{
}

} // verus!
