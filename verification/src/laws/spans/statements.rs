//! Where the errors in definitions are located.

use crate::grammar::basics::{
    expect_name, expect_one, expect_upname, maybe_name, maybe_upname, one, series, span,
};
use crate::grammar::statements::{
    constructor, constructor_in, custom_type, external_fn, external_fn_body, external_fn_param,
    external_fn_param_in, external_type, import, import_path, maybe_alias, module_const, statement,
    type_constructor_arg, type_constructor_arg_in, type_constructor_args, type_head, type_param,
    type_param_in, unqualified_imports, unqualified_in_braces,
};
use crate::grammar::types::type_annotation;
use crate::laws::spans::{all_fit, error_fits, errors_of_a_series};
use crate::laws::spans::constants::errors_in_constants_are_located;
use crate::laws::spans::exprs::functions_are_located;
use crate::laws::spans::types::{annotations_are_located, types_are_located};
use crate::model::{ExternalFnArgView, Text, UnqualifiedImportView};
use crate::stream::{ahead, next, peek, peek_second, Cursor, Toks};
use crate::token::Tok;
use vstd::prelude::*;

verus! {

/// The errors in a definition are located within the bound of the tokens.
pub proof fn errors_in_statements_are_located(bound: nat, t: Toks, c: Cursor)
    requires
        all_fit(bound, t),
    ensures
        error_fits(bound, statement(t, c)),
{
    reveal(statement);
    let behind_first = next(t, c);
    let behind_second = next(t, behind_first);
    match (peek(t, c), peek_second(t, c)) {
        (Some((_, Tok::Import, _)), _) => {
            lemma_import(bound, t, behind_first);
        },
        (Some((_, Tok::Const, _)), _) => {
            lemma_const(bound, t, behind_first, false);
        },
        (Some((_, Tok::Pub, _)), Some((_, Tok::Const, _))) => {
            lemma_const(bound, t, behind_second, true);
        },
        (Some((start, Tok::External, _)), Some((_, Tok::Type, _))) => {
            lemma_external_type(bound, t, behind_second, start, false);
        },
        (Some((start, Tok::External, _)), Some((_, Tok::Fn, _))) => {
            lemma_external_fn(bound, t, behind_second, start, false);
        },
        (Some((start, Tok::Pub, _)), Some((_, Tok::External, _))) => {
            lemma_external_type(bound, t, next(t, behind_second), start, true);
            lemma_external_fn(bound, t, next(t, behind_second), start, true);
        },
        (Some((start, Tok::Fn, _)), _) => {
            functions_are_located(bound, t, behind_first, start, false, false);
        },
        (Some((start, Tok::Pub, _)), Some((_, Tok::Fn, _))) => {
            functions_are_located(bound, t, behind_second, start, true, false);
        },
        (Some((start, Tok::Type, _)), _) => {
            lemma_custom_type(bound, t, behind_first, start, false, false);
        },
        (Some((start, Tok::Pub, _)), Some((_, Tok::Opaque, _))) => {
            let to = expect_one(t, behind_second, Tok::Type).to;
            lemma_custom_type(bound, t, to, start, true, true);
        },
        (Some((start, Tok::Pub, _)), Some((_, Tok::Type, _))) => {
            lemma_custom_type(bound, t, behind_second, start, true, false);
        },
        _ => {},
    }
}

proof fn lemma_external_fn(bound: nat, t: Toks, c: Cursor, start: usize, public: bool)
    requires
        all_fit(bound, t),
    ensures
        error_fits(bound, external_fn(t, c, start, public)),
{
    reveal(external_fn);
    let p = external_fn_param_in(t);
    assert forall|d: Cursor| error_fits(bound, #[trigger] p(d)) by {
        types_are_located(bound, t, next(t, next(t, d)), false);
        types_are_located(bound, t, d, false);
        assert(error_fits(bound, external_fn_param(t, d)));
    }
    let named = expect_name(t, c);
    let lpar = expect_one(t, named.to, Tok::Lpar);
    errors_of_a_series(bound, p, t, Some(Tok::Comma), Seq::empty(), lpar.to);
    let params = series(p, t, Some(Tok::Comma), Seq::empty(), lpar.to);
    let rpar = expect_one(t, params.to, Tok::Rpar);
    if let Ok((_, name, _)) = named.res {
        if let Ok(args) = params.res {
            lemma_external_fn_body(bound, t, rpar.to, start, public, name, args);
        }
    }
}

proof fn lemma_external_fn_body(
    bound: nat,
    t: Toks,
    c: Cursor,
    start: usize,
    public: bool,
    name: Text,
    args: Seq<ExternalFnArgView>,
)
    requires
        all_fit(bound, t),
    ensures
        error_fits(bound, external_fn_body(t, c, start, public, name, args)),
{
    reveal(external_fn_body);
    types_are_located(bound, t, expect_one(t, c, Tok::RArrow).to, false);
}

proof fn lemma_external_type(bound: nat, t: Toks, c: Cursor, start: usize, public: bool)
    requires
        all_fit(bound, t),
    ensures
        error_fits(bound, external_type(t, c, start, public)),
{
    reveal(external_type);
    lemma_type_head(bound, t, c);
}

proof fn lemma_type_head(bound: nat, t: Toks, c: Cursor)
    requires
        all_fit(bound, t),
    ensures
        error_fits(bound, type_head(t, c)),
        type_head(t, c).res matches Ok((_, _, _, end)) ==> end <= bound,
{
    let p = type_param_in(t);
    assert forall|d: Cursor| error_fits(bound, #[trigger] p(d)) by {
        assert(error_fits(bound, type_param(t, d)));
    }
    let inner = next(t, expect_upname(t, c).to);
    errors_of_a_series(bound, p, t, Some(Tok::Comma), Seq::empty(), inner);
}

proof fn lemma_custom_type(
    bound: nat,
    t: Toks,
    c: Cursor,
    start: usize,
    public: bool,
    opaque: bool,
)
    requires
        all_fit(bound, t),
        start <= bound,
    ensures
        error_fits(bound, custom_type(t, c, start, public, opaque)),
{
    reveal(custom_type);
    lemma_type_head(bound, t, c);
    let inner = next(t, type_head(t, c).to);
    let p = constructor_in(t);
    assert forall|d: Cursor| error_fits(bound, #[trigger] p(d)) by {
        lemma_constructor_args(bound, t, next(t, d));
        assert(error_fits(bound, constructor(t, d)));
    }
    errors_of_a_series(bound, p, t, None, Seq::empty(), inner);
    types_are_located(bound, t, inner, false);
}

proof fn lemma_constructor_args(bound: nat, t: Toks, c: Cursor)
    requires
        all_fit(bound, t),
    ensures
        error_fits(bound, type_constructor_args(t, c)),
{
    let p = type_constructor_arg_in(t);
    assert forall|d: Cursor| error_fits(bound, #[trigger] p(d)) by {
        types_are_located(bound, t, next(t, next(t, d)), false);
        types_are_located(bound, t, d, false);
        assert(error_fits(bound, type_constructor_arg(t, d)));
    }
    errors_of_a_series(bound, p, t, Some(Tok::Comma), Seq::empty(), next(t, c));
}

proof fn lemma_import(bound: nat, t: Toks, c: Cursor)
    requires
        all_fit(bound, t),
    ensures
        error_fits(bound, import(t, c)),
{
    reveal(import);
    lemma_import_path(bound, t, c, 0, Seq::empty());
    let inner = next(t, import_path(t, c, 0, Seq::empty()).to);
    lemma_unqualified(bound, t, expect_one(t, inner, Tok::Lbrace).to, Seq::empty());
    assert(error_fits(bound, unqualified_in_braces(t, inner)));
}

proof fn lemma_import_path(bound: nat, t: Toks, c: Cursor, start: usize, before: Seq<Text>)
    requires
        all_fit(bound, t),
    ensures
        error_fits(bound, import_path(t, c, start, before)),
    decreases ahead(t, c),
{
    let named = expect_name(t, c);
    if let Ok((name_start, name, _)) = named.res {
        let path_start = if before.len() == 0 {
            name_start
        } else {
            start
        };
        if one(t, named.to, Tok::Slash) is Some {
            lemma_import_path(bound, t, next(t, named.to), path_start, before.push(name));
        }
    }
}

proof fn lemma_unqualified(bound: nat, t: Toks, c: Cursor, before: Seq<UnqualifiedImportView>)
    requires
        all_fit(bound, t),
    ensures
        error_fits(bound, unqualified_imports(t, c, before)),
    decreases ahead(t, c),
{
    let named = match maybe_name(t, c) {
        Some(name) => Some(name),
        None => maybe_upname(t, c),
    };
    if let Some((start, name, end)) = named {
        let alias = maybe_alias(t, next(t, c));
        if let Ok(as_name) = alias.res {
            let import = UnqualifiedImportView { location: span(start, end), name, as_name };
            lemma_unqualified(bound, t, next(t, alias.to), before.push(import));
        }
    }
}

proof fn lemma_const(bound: nat, t: Toks, c: Cursor, public: bool)
    requires
        all_fit(bound, t),
    ensures
        error_fits(bound, module_const(t, c, public)),
{
    reveal(module_const);
    let named = expect_name(t, c);
    annotations_are_located(bound, t, named.to, Tok::Colon, true);
    let typ = type_annotation(t, named.to, Tok::Colon, true);
    errors_in_constants_are_located(bound, t, expect_one(t, typ.to, Tok::Equal).to);
}

} // verus!
