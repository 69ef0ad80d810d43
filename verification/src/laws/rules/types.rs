//! The rules of types.

use crate::error::ParseErrorType;
use crate::grammar::basics::{error_at, found, span, Step};
use crate::grammar::types::{ty, ty_from, type_annotation, types};
use crate::laws::places::advances;
use crate::laws::places::types::type_is_found;
use crate::laws::rules::{
    at, begin, end, is_discard, is_name, is_tok, is_upname, lemma_listed, listed, Row,
};
use crate::model::{Text, TypeView};
use crate::stream::{Cursor, Toks};
use crate::token::Tok;
use vstd::prelude::*;

verus! {

/// A type at a place of a stream.
pub open spec fn type_in(t: Toks, for_const: bool) -> spec_fn(Cursor) -> Step<Option<TypeView>> {
    |c: Cursor| ty(t, c, for_const)
}

/// A name that starts with an underscore is a hole.
pub proof fn a_discard_is_a_hole(t: Toks, i: nat, name: Text, for_const: bool)
    requires
        is_discard(t, i, name),
    ensures
        ty(t, at(i), for_const) == found(
            Some(TypeView::Hole { location: span(begin(t, i), end(t, i)), name }),
            at(i + 1),
        ),
{
}

/// A name that starts with a lower case letter is a type variable, and an error in the type of a
/// constant.
pub proof fn a_name_is_a_type_variable(t: Toks, i: nat, name: Text)
    requires
        is_name(t, i, name),
        !is_tok(t, i + 1, Tok::Dot),
    ensures
        ty(t, at(i), false) == found(
            Some(TypeView::Var { location: span(begin(t, i), end(t, i)), name }),
            at(i + 1),
        ),
        ty(t, at(i), true) == error_at::<Option<TypeView>>(
            ParseErrorType::NotConstType,
            span(begin(t, i), end(t, i)),
            at(i + 1),
        ),
{
}

/// Whether the name of a type stands at a position, behind that of its module and a dot if there is
/// one, and up to which position.
pub open spec fn type_named(t: Toks, i: nat, module: Option<Text>, name: Text, j: nat) -> bool {
    match module {
        Some(text) => is_name(t, i, text) && is_tok(t, i + 1, Tok::Dot) && is_upname(t, i + 2, name)
            && j == i + 3,
        None => is_upname(t, i, name) && j == i + 1,
    }
}

/// The name of a type without arguments is that type.
pub proof fn a_type_without_arguments(
    t: Toks,
    i: nat,
    module: Option<Text>,
    name: Text,
    j: nat,
    for_const: bool,
)
    requires
        type_named(t, i, module, name, j),
        !is_tok(t, j, Tok::Lpar),
    ensures
        ty(t, at(i), for_const) == found(
            Some(
                TypeView::Constructor {
                    location: span(begin(t, i), end(t, (j - 1) as nat)),
                    module,
                    name,
                    args: Seq::empty(),
                },
            ),
            at(j),
        ),
{
}

/// The name of a type with types in parentheses behind it is that type with these arguments.
pub proof fn a_type_with_arguments(
    t: Toks,
    i: nat,
    module: Option<Text>,
    name: Text,
    j: nat,
    row: Row<TypeView>,
    k: nat,
    for_const: bool,
)
    requires
        type_named(t, i, module, name, j),
        is_tok(t, j, Tok::Lpar),
        listed(t, type_in(t, for_const), Tok::Comma, j + 1, k, row),
        is_tok(t, k, Tok::Rpar),
    ensures
        ty(t, at(i), for_const) == found(
            Some(
                TypeView::Constructor {
                    location: span(begin(t, i), end(t, k)),
                    module,
                    name,
                    args: row.things,
                },
            ),
            at(k + 1),
        ),
{
    lemma_types(t, j + 1, k, row, for_const);
}

proof fn lemma_types(t: Toks, i: nat, k: nat, row: Row<TypeView>, for_const: bool)
    requires
        i <= t.len(),
        listed(t, type_in(t, for_const), Tok::Comma, i, k, row),
        is_tok(t, k, Tok::Rpar),
    ensures
        types(t, at(i), for_const) == found(row.things, at(k)),
        i <= k,
{
    let p = ty_from(t, at(i), for_const);
    let q = type_in(t, for_const);
    assert forall|d: Cursor| i <= d.at <= t.len() implies #[trigger] p(d) == q(d) && advances(
        t,
        d,
        p(d),
    ) by {
        type_is_found(t, d, for_const);
    }
    lemma_listed(t, q, p, Tok::Comma, i, k, row);
}

/// `tuple` with types in parentheses behind it is a tuple, located at its keyword.
pub proof fn a_tuple_type(t: Toks, i: nat, row: Row<TypeView>, k: nat, for_const: bool)
    requires
        is_tok(t, i, Tok::Tuple),
        is_tok(t, i + 1, Tok::Lpar),
        listed(t, type_in(t, for_const), Tok::Comma, i + 2, k, row),
        is_tok(t, k, Tok::Rpar),
    ensures
        ty(t, at(i), for_const) == found(
            Some(
                TypeView::Tuple { location: span(begin(t, i), end(t, i)), elems: row.things },
            ),
            at(k + 1),
        ),
{
    lemma_types(t, i + 2, k, row, for_const);
}

/// `fn` with types in parentheses, an arrow and a type behind it is the type of a function.
pub proof fn a_function_type(
    t: Toks,
    i: nat,
    row: Row<TypeView>,
    k: nat,
    retrn: TypeView,
    m: nat,
)
    requires
        is_tok(t, i, Tok::Fn),
        is_tok(t, i + 1, Tok::Lpar),
        listed(t, type_in(t, false), Tok::Comma, i + 2, k, row),
        is_tok(t, k, Tok::Rpar),
        is_tok(t, k + 1, Tok::RArrow),
        ty(t, at(k + 2), false) == found(Some(retrn), at(m)),
    ensures
        ty(t, at(i), false) == found(
            Some(
                TypeView::Fn {
                    location: span(begin(t, i), retrn.location().end),
                    args: row.things,
                    retrn: Box::new(retrn),
                },
            ),
            at(m),
        ),
{
    lemma_types(t, i + 2, k, row, false);
    type_is_found(t, at(k + 2), false);
}

/// The type of a constant is no function.
pub proof fn no_function_in_the_type_of_a_constant(t: Toks, i: nat)
    requires
        is_tok(t, i, Tok::Fn),
    ensures
        ty(t, at(i), true) == error_at::<Option<TypeView>>(
            ParseErrorType::NotConstType,
            span(begin(t, i), end(t, i)),
            at(i + 1),
        ),
{
}

/// No other token starts a type.
pub proof fn nothing_else_is_a_type(t: Toks, c: Cursor, for_const: bool)
    ensures
        (ty(t, c, for_const).res matches Ok(None)) <==> {
            ||| c.lost
            ||| c.at >= t.len()
            ||| !(t[c.at as int] matches Some(
                (_, Tok::DiscardName { .. } | Tok::Tuple | Tok::Fn | Tok::UpName { .. } | Tok::Name { .. }, _),
            ))
        },
        (ty(t, c, for_const).res matches Ok(None)) ==> ty(t, c, for_const).to == c,
{
    if c.at <= t.len() {
        type_is_found(t, c, for_const);
    }
}

/// Behind the token that announces it a type is an annotation.
pub proof fn an_announced_type(
    t: Toks,
    i: nat,
    start_tok: Tok,
    typ: TypeView,
    j: nat,
    for_const: bool,
)
    requires
        is_tok(t, i, start_tok),
        ty(t, at(i + 1), for_const) == found(Some(typ), at(j)),
    ensures
        type_annotation(t, at(i), start_tok, for_const) == found(Some(typ), at(j)),
{
}

} // verus!
