//! What types need.

use crate::error::ParseErrorType;
use crate::grammar::basics::{error_at, expect_upname, nothing, span};
use crate::grammar::types::{fn_type, ty, type_annotation, type_name_finish, types};
use crate::laws::needs::{lacks, lemma_lacks, needs, passes_on, stops};
use crate::laws::places::types::{type_is_found, types_move};
use crate::laws::rules::{at, begin, end, is_name, is_tok, is_upname};
use crate::model::{Text, TypeView};
use crate::stream::Toks;
use crate::token::Tok;
use vstd::prelude::*;

verus! {

/// A tuple type needs its types in parentheses.
pub proof fn what_a_tuple_type_needs(t: Toks, i: nat, k: nat, for_const: bool)
    requires
        is_tok(t, i, Tok::Tuple),
    ensures
        !is_tok(t, i + 1, Tok::Lpar) ==> lacks(ty(t, at(i), for_const), t, i + 1, Tok::Lpar),
        is_tok(t, i + 1, Tok::Lpar) ==> needs(
            ty(t, at(i), for_const),
            types(t, at(i + 2), for_const),
            t,
            k,
            Tok::Rpar,
        ),
{
    lemma_lacks(t, i + 1, Tok::Lpar);
    lemma_lacks(t, k, Tok::Rpar);
}

/// A function type needs the types of its arguments in parentheses, an arrow, and the type of its
/// result.
pub proof fn what_a_function_type_needs(t: Toks, i: nat, k: nat)
    requires
        is_tok(t, i, Tok::Fn),
    ensures
        ({
            let whole = ty(t, at(i), false);
            let args = types(t, at(i + 2), false);
            let retrn = ty(t, at(k + 2), false);
            &&& !is_tok(t, i + 1, Tok::Lpar) ==> lacks(whole, t, i + 1, Tok::Lpar)
            &&& is_tok(t, i + 1, Tok::Lpar) ==> needs(whole, args, t, k, Tok::Rpar)
            &&& is_tok(t, i + 1, Tok::Lpar) && stops(args, k) && is_tok(t, k, Tok::Rpar) ==> {
                &&& !is_tok(t, k + 1, Tok::RArrow) ==> lacks(whole, t, k + 1, Tok::RArrow)
                &&& is_tok(t, k + 1, Tok::RArrow) ==> passes_on(whole, retrn)
                &&& is_tok(t, k + 1, Tok::RArrow) && nothing(retrn) ==> whole == error_at::<
                    Option<TypeView>,
                >(
                    ParseErrorType::ExpectedType,
                    span(begin(t, k + 1), end(t, k + 1)),
                    at(k + 2),
                )
            }
        }),
{
    let step = fn_type(t, at(i + 1), begin(t, i));
    assert(ty(t, at(i), false) == step);
    lemma_lacks(t, i + 1, Tok::Lpar);
    lemma_lacks(t, k, Tok::Rpar);
    lemma_lacks(t, k + 1, Tok::RArrow);
    if is_tok(t, i + 1, Tok::Lpar) {
        types_move(t, at(i + 2), false);
        if is_tok(t, k + 1, Tok::RArrow) {
            type_is_found(t, at(k + 2), false);
        }
    }
}

/// An opening parenthesis behind the name of a type needs types and a closing one.
pub proof fn what_arguments_of_a_type_need(
    t: Toks,
    i: nat,
    module: Option<Text>,
    name: Text,
    k: nat,
    for_const: bool,
)
    requires
        match module {
            Some(text) => is_name(t, i, text) && is_tok(t, i + 1, Tok::Dot),
            None => true,
        },
        is_upname(
            t,
            if module is Some {
                i + 2
            } else {
                i
            },
            name,
        ),
    ensures
        ({
            let behind = if module is Some {
                i + 3
            } else {
                i + 1
            };
            is_tok(t, behind, Tok::Lpar) ==> needs(
                ty(t, at(i), for_const),
                types(t, at(behind + 1), for_const),
                t,
                k,
                Tok::Rpar,
            )
        }),
{
    let behind = if module is Some {
        i + 3
    } else {
        i + 1
    };
    let step = type_name_finish(
        t,
        at(behind),
        for_const,
        begin(t, i),
        module,
        name,
        end(t, (behind - 1) as nat),
    );
    assert(ty(t, at(i), for_const) == step);
    lemma_lacks(t, k, Tok::Rpar);
}

/// The name of a module and a dot need the name of a type.
pub proof fn what_a_module_of_a_type_needs(t: Toks, i: nat, module: Text, for_const: bool)
    requires
        is_name(t, i, module),
        is_tok(t, i + 1, Tok::Dot),
    ensures
        passes_on(ty(t, at(i), for_const), expect_upname(t, at(i + 2))),
{
}

/// An error in a type that is announced is passed on.
pub proof fn what_an_announced_type_needs(t: Toks, i: nat, tok: Tok, for_const: bool)
    requires
        is_tok(t, i, tok),
    ensures
        passes_on(type_annotation(t, at(i), tok, for_const), ty(t, at(i + 1), for_const)),
{
}

} // verus!
