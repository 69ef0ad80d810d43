//! Where types and the errors in them are located.

use crate::grammar::basics::{expect_one, expect_upname, one, Step};
use crate::grammar::types::{fn_type, ty, ty_from, type_annotation, type_name_finish, types};
use crate::laws::spans::{all_fit, error_fits, errors_of_a_series, within};
use crate::model::{Text, TypeView};
use crate::stream::{ahead, from, next, peek, Cursor, Toks};
use crate::token::Tok;
use vstd::prelude::*;

verus! {

/// Whether the type that a step finds, or its error, is located within a bound.
pub open spec fn type_fits(bound: nat, step: Step<Option<TypeView>>) -> bool {
    &&& error_fits(bound, step)
    &&& step.res matches Ok(Some(typ)) ==> within(bound, typ.location())
}

/// A type and the errors in it are located within the bound of the tokens.
pub proof fn types_are_located(bound: nat, t: Toks, c: Cursor, for_const: bool)
    requires
        all_fit(bound, t),
    ensures
        type_fits(bound, ty(t, c, for_const)),
    decreases ahead(t, c), 0nat,
{
    let to = next(t, c);
    match peek(t, c) {
        Some((_, Tok::Tuple, _)) => {
            lemma_types(bound, t, expect_one(t, to, Tok::Lpar).to, for_const);
        },
        Some((start, Tok::Fn, _)) => {
            lemma_fn_type(bound, t, to, start);
        },
        Some((start, Tok::UpName { name }, end)) => {
            lemma_type_name(bound, t, to, for_const, start, None, name@, end);
        },
        Some((start, Tok::Name { name }, _)) => {
            let upname = expect_upname(t, next(t, to));
            if let Ok((_, text, end)) = upname.res {
                lemma_type_name(bound, t, upname.to, for_const, start, Some(name@), text, end);
            }
        },
        _ => {},
    }
}

proof fn lemma_fn_type(bound: nat, t: Toks, c: Cursor, start: usize)
    requires
        all_fit(bound, t),
        start <= bound,
    ensures
        type_fits(bound, fn_type(t, c, start)),
    decreases ahead(t, c), 3nat,
{
    let lpar = expect_one(t, c, Tok::Lpar);
    lemma_types(bound, t, lpar.to, false);
    let args = types(t, lpar.to, false);
    let rpar = expect_one(t, args.to, Tok::Rpar);
    let arrow = expect_one(t, rpar.to, Tok::RArrow);
    types_are_located(bound, t, from(t, c, arrow.to), false);
}

proof fn lemma_type_name(
    bound: nat,
    t: Toks,
    c: Cursor,
    for_const: bool,
    start: usize,
    module: Option<Text>,
    name: Text,
    end: usize,
)
    requires
        all_fit(bound, t),
        start <= bound,
        end <= bound,
    ensures
        type_fits(bound, type_name_finish(t, c, for_const, start, module, name, end)),
    decreases ahead(t, c), 3nat,
{
    if one(t, c, Tok::Lpar) is Some {
        lemma_types(bound, t, next(t, c), for_const);
    }
}

proof fn lemma_types(bound: nat, t: Toks, c: Cursor, for_const: bool)
    requires
        all_fit(bound, t),
    ensures
        error_fits(bound, types(t, c, for_const)),
    decreases ahead(t, c), 2nat,
{
    let p = ty_from(t, c, for_const);
    assert forall|d: Cursor| error_fits(bound, #[trigger] p(d)) by {
        types_are_located(bound, t, from(t, c, d), for_const);
    }
    errors_of_a_series(bound, p, t, Some(Tok::Comma), Seq::empty(), c);
}

/// A type annotation and the errors in it are located within the bound of the tokens.
pub proof fn annotations_are_located(
    bound: nat,
    t: Toks,
    c: Cursor,
    start_tok: Tok,
    for_const: bool,
)
    requires
        all_fit(bound, t),
    ensures
        type_fits(bound, type_annotation(t, c, start_tok, for_const)),
{
    types_are_located(bound, t, next(t, c), for_const);
}

} // verus!
