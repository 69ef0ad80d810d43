//! How far looking for types gets.

use crate::grammar::basics::{expect_one, expect_upname, nothing, one};
use crate::grammar::types::{fn_type, ty, ty_from, type_annotation, type_name_finish, types};
use crate::laws::places::{advances, finds, moves, series_moves};
use crate::model::Text;
use crate::stream::{ahead, next, peek, Cursor, Toks};
use crate::token::Tok;
use vstd::prelude::*;

verus! {

/// Looking for a type gets ahead if it finds one, stays where it is if not, and never goes back nor
/// beyond the last token.
pub proof fn type_is_found(t: Toks, c: Cursor, for_const: bool)
    requires
        c.at <= t.len(),
    ensures
        finds(t, c, ty(t, c, for_const)),
    decreases ahead(t, c), 0nat,
{
    let to = next(t, c);
    match peek(t, c) {
        Some((_, Tok::Tuple, _)) => {
            let lpar = expect_one(t, to, Tok::Lpar);
            types_move(t, lpar.to, for_const);
        },
        Some((start, Tok::Fn, _)) => {
            fn_type_moves(t, to, start);
        },
        Some((start, Tok::UpName { name }, end)) => {
            type_name_finish_moves(t, to, for_const, start, None, name@, end);
        },
        Some((start, Tok::Name { name }, _)) => {
            let upname = expect_upname(t, next(t, to));
            if let Ok((_, upname_text, end)) = upname.res {
                type_name_finish_moves(
                    t,
                    upname.to,
                    for_const,
                    start,
                    Some(name@),
                    upname_text,
                    end,
                );
            }
        },
        _ => {},
    }
}

pub(crate) proof fn fn_type_moves(t: Toks, c: Cursor, start: usize)
    requires
        c.at <= t.len(),
    ensures
        moves(t, c, fn_type(t, c, start)),
        !nothing(fn_type(t, c, start)),
    decreases ahead(t, c), 3nat,
{
    let lpar = expect_one(t, c, Tok::Lpar);
    types_move(t, lpar.to, false);
    let args = types(t, lpar.to, false);
    let rpar = expect_one(t, args.to, Tok::Rpar);
    let arrow = expect_one(t, rpar.to, Tok::RArrow);
    type_is_found(t, arrow.to, false);
}

pub(crate) proof fn type_name_finish_moves(
    t: Toks,
    c: Cursor,
    for_const: bool,
    start: usize,
    module: Option<Text>,
    name: Text,
    end: usize,
)
    requires
        c.at <= t.len(),
    ensures
        moves(t, c, type_name_finish(t, c, for_const, start, module, name, end)),
        !nothing(type_name_finish(t, c, for_const, start, module, name, end)),
    decreases ahead(t, c), 3nat,
{
    if one(t, c, Tok::Lpar) is Some {
        types_move(t, next(t, c), for_const);
    }
}

pub(crate) proof fn types_move(t: Toks, c: Cursor, for_const: bool)
    requires
        c.at <= t.len(),
    ensures
        moves(t, c, types(t, c, for_const)),
    decreases ahead(t, c), 2nat,
{
    let p = ty_from(t, c, for_const);
    assert forall|d: Cursor| c.at <= d.at <= t.len() implies advances(t, d, #[trigger] p(d)) by {
        type_is_found(t, d, for_const);
    }
    series_moves(p, t, Some(Tok::Comma), Seq::empty(), c);
}

/// Looking for a type behind the token that announces it gets ahead if it finds one, stays where it
/// is if not, and never goes back nor beyond the last token.
pub proof fn type_annotation_is_found(t: Toks, c: Cursor, start_tok: Tok, for_const: bool)
    requires
        c.at <= t.len(),
    ensures
        finds(t, c, type_annotation(t, c, start_tok, for_const)),
{
    type_is_found(t, next(t, c), for_const);
}

} // verus!
