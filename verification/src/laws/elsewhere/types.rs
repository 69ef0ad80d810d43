//! Types elsewhere.

use crate::grammar::basics::{expect_one, expect_upname, one};
use crate::grammar::types::{fn_type, ty, ty_from, type_annotation, type_name_finish, types};
use crate::laws::elsewhere::{series_elsewhere, Stretch};
use crate::laws::places::advances;
use crate::laws::places::types::{
    fn_type_moves, type_annotation_is_found, type_is_found, type_name_finish_moves, types_move,
};
use crate::model::Text;
use crate::stream::{ahead, next, peek, Cursor};
use crate::token::Tok;
use vstd::prelude::*;

verus! {

/// Where the same tokens stand elsewhere, the same type is found.
pub proof fn types_are_the_same_elsewhere(s: Stretch, c: Cursor, for_const: bool)
    requires
        s.fits(),
        c.at <= s.here.len(),
    ensures
        s.same(ty(s.here, c, for_const), ty(s.there, s.across(c), for_const)),
    decreases ahead(s.here, c), 0nat,
{
    let t = s.here;
    let to = next(t, c);
    type_is_found(t, c, for_const);
    match peek(t, c) {
        Some((_, Tok::Tuple, _)) => {
            let lpar = expect_one(t, to, Tok::Lpar);
            types_move(t, lpar.to, for_const);
            lemma_types(s, lpar.to, for_const);
        },
        Some((start, Tok::Fn, _)) => {
            lemma_fn_type(s, to, start);
        },
        Some((start, Tok::UpName { name }, end)) => {
            lemma_type_name_finish(s, to, for_const, start, None, name@, end);
        },
        Some((start, Tok::Name { name }, _)) => {
            let upname = expect_upname(t, next(t, to));
            if let Ok((_, upname_text, end)) = upname.res {
                type_name_finish_moves(t, upname.to, for_const, start, Some(name@), upname_text, end);
                lemma_type_name_finish(
                    s,
                    upname.to,
                    for_const,
                    start,
                    Some(name@),
                    upname_text,
                    end,
                );
            }
        },
        _ => {},
    }
}

proof fn lemma_fn_type(s: Stretch, c: Cursor, start: usize)
    requires
        s.fits(),
        c.at <= s.here.len(),
    ensures
        s.same(fn_type(s.here, c, start), fn_type(s.there, s.across(c), start)),
    decreases ahead(s.here, c), 3nat,
{
    let t = s.here;
    fn_type_moves(t, c, start);
    let lpar = expect_one(t, c, Tok::Lpar);
    types_move(t, lpar.to, false);
    lemma_types(s, lpar.to, false);
    let args = types(t, lpar.to, false);
    let rpar = expect_one(t, args.to, Tok::Rpar);
    let arrow = expect_one(t, rpar.to, Tok::RArrow);
    type_is_found(t, arrow.to, false);
    types_are_the_same_elsewhere(s, arrow.to, false);
}

proof fn lemma_type_name_finish(
    s: Stretch,
    c: Cursor,
    for_const: bool,
    start: usize,
    module: Option<Text>,
    name: Text,
    end: usize,
)
    requires
        s.fits(),
        c.at <= s.here.len(),
    ensures
        s.same(
            type_name_finish(s.here, c, for_const, start, module, name, end),
            type_name_finish(s.there, s.across(c), for_const, start, module, name, end),
        ),
    decreases ahead(s.here, c), 3nat,
{
    let t = s.here;
    type_name_finish_moves(t, c, for_const, start, module, name, end);
    if one(t, c, Tok::Lpar) is Some {
        types_move(t, next(t, c), for_const);
        lemma_types(s, next(t, c), for_const);
    }
}

proof fn lemma_types(s: Stretch, c: Cursor, for_const: bool)
    requires
        s.fits(),
        c.at <= s.here.len(),
    ensures
        s.same(types(s.here, c, for_const), types(s.there, s.across(c), for_const)),
    decreases ahead(s.here, c), 2nat,
{
    let t = s.here;
    let p = ty_from(t, c, for_const);
    let q = ty_from(s.there, s.across(c), for_const);
    assert forall|d: Cursor| c.at <= d.at <= t.len() implies advances(t, d, #[trigger] p(d))
        && s.same(p(d), q(s.across(d))) by {
        type_is_found(t, d, for_const);
        types_are_the_same_elsewhere(s, d, for_const);
    }
    series_elsewhere(s, p, q, Some(Tok::Comma), Seq::empty(), c);
}

/// Where the same tokens stand elsewhere, the same type is found behind the token that announces
/// it.
pub proof fn annotations_are_the_same_elsewhere(
    s: Stretch,
    c: Cursor,
    start_tok: Tok,
    for_const: bool,
)
    requires
        s.fits(),
        c.at <= s.here.len(),
    ensures
        s.same(
            type_annotation(s.here, c, start_tok, for_const),
            type_annotation(s.there, s.across(c), start_tok, for_const),
        ),
{
    let t = s.here;
    type_annotation_is_found(t, c, start_tok, for_const);
    type_is_found(t, next(t, c), for_const);
    types_are_the_same_elsewhere(s, next(t, c), for_const);
}

} // verus!
