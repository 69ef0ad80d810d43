//! What definitions need.

use crate::error::ParseErrorType;
use crate::grammar::basics::{
    error_at, expect_name, expect_string, expect_upname, nothing, series, span,
};
use crate::grammar::constants::const_value;
use crate::grammar::exprs::function;
use crate::grammar::statements::{
    constructor, constructor_in, custom_type, external_fn, external_fn_body, external_fn_param,
    external_fn_param_in, external_type, import, import_path, maybe_alias, module_const, statement,
    type_constructor_arg, type_constructor_arg_in, type_constructor_args, type_head, type_param_in,
    unqualified_imports, unqualified_in_braces,
};
use crate::grammar::types::{ty, type_annotation};
use crate::laws::needs::{lacks, lemma_lacks, needs, passes_on, stops};

use crate::laws::rules::{at, begin, behind_label, end, is_name, is_tok, is_upname, labelled};
use crate::laws::rules::statements::keyword;
use crate::model::{ExternalFnArgView, StatementView, Text, UnqualifiedImportView};
use crate::stream::Toks;
use crate::token::Tok;
use vstd::prelude::*;

verus! {

/// An error in what follows the keyword of a definition is passed on.
pub proof fn what_a_definition_needs(t: Toks, i: nat, public: bool)
    requires
        public ==> is_tok(t, i, Tok::Pub),
    ensures
        ({
            let whole = statement(t, at(i));
            let key = keyword(i, public);
            let to = at(key + 1);
            let start = begin(t, i);
            &&& is_tok(t, i, Tok::Import) ==> passes_on(whole, import(t, at(i + 1)))
            &&& is_tok(t, key, Tok::Const) ==> passes_on(whole, module_const(t, to, public))
            &&& is_tok(t, key, Tok::Fn) ==> passes_on(
                whole,
                function(t, to, start, public, false),
            )
            &&& is_tok(t, key, Tok::Type) ==> passes_on(
                whole,
                custom_type(t, to, start, public, false),
            )
            &&& is_tok(t, key, Tok::External) && is_tok(t, key + 1, Tok::Type) ==> passes_on(
                whole,
                external_type(t, at(key + 2), start, public),
            )
            &&& is_tok(t, key, Tok::External) && is_tok(t, key + 1, Tok::Fn) ==> passes_on(
                whole,
                external_fn(t, at(key + 2), start, public),
            )
            &&& public && is_tok(t, key, Tok::Opaque) && !is_tok(t, key + 1, Tok::Type) ==> lacks(
                whole,
                t,
                key + 1,
                Tok::Type,
            )
            &&& public && is_tok(t, key, Tok::Opaque) && is_tok(t, key + 1, Tok::Type)
                ==> passes_on(whole, custom_type(t, at(key + 2), start, true, true))
        }),
{
    reveal(statement);
    lemma_lacks(t, i + 2, Tok::Type);
}

/// The names of the parameters of a type need a closing parenthesis, and a type needs a name.
pub proof fn what_the_head_of_a_type_needs(t: Toks, i: nat, name: Text, k: nat)
    ensures
        passes_on(type_head(t, at(i)), expect_upname(t, at(i))),
        is_upname(t, i, name) && is_tok(t, i + 1, Tok::Lpar) ==> needs(
            type_head(t, at(i)),
            series(type_param_in(t), t, Some(Tok::Comma), Seq::empty(), at(i + 2)),
            t,
            k,
            Tok::Rpar,
        ),
{
    lemma_lacks(t, k, Tok::Rpar);
}

/// An error in the head of a type is passed on. Constructors need a closing brace, and an error in
/// one of them is passed on, as is one in the type that an alias stands for.
pub proof fn what_a_type_needs(
    t: Toks,
    i: nat,
    start: usize,
    public: bool,
    opaque: bool,
    j: nat,
    k: nat,
)
    ensures
        ({
            let whole = custom_type(t, at(i), start, public, opaque);
            let head = type_head(t, at(i));
            let constructors = series(constructor_in(t), t, None, Seq::empty(), at(j + 1));
            &&& passes_on(whole, head)
            &&& passes_on(external_type(t, at(i), start, public), head)
            &&& stops(head, j) && is_tok(t, j, Tok::Lbrace) ==> needs(
                whole,
                constructors,
                t,
                k,
                Tok::Rbrace,
            )
            &&& stops(head, j) && is_tok(t, j, Tok::Equal) && !opaque ==> passes_on(
                whole,
                ty(t, at(j + 1), false),
            )
        }),
{
    reveal(custom_type);
    reveal(external_type);
    lemma_lacks(t, k, Tok::Rbrace);
}

/// Arguments of a constructor need a closing parenthesis. An error in one of them is passed on.
pub proof fn what_a_constructor_needs(t: Toks, i: nat, name: Text, k: nat)
    requires
        is_upname(t, i, name),
        is_tok(t, i + 1, Tok::Lpar),
    ensures
        needs(
            constructor(t, at(i)),
            series(type_constructor_arg_in(t), t, Some(Tok::Comma), Seq::empty(), at(i + 2)),
            t,
            k,
            Tok::Rpar,
        ),
{
    let step = type_constructor_args(t, at(i + 1));
    lemma_lacks(t, k, Tok::Rpar);
    assert(passes_on(constructor(t, at(i)), step));
}

/// An error in the type of an argument of a constructor, or of a parameter of an external function,
/// is passed on.
pub proof fn what_a_labelled_type_needs(t: Toks, i: nat, label: Option<Text>)
    requires
        labelled(t, i, label),
    ensures
        passes_on(type_constructor_arg(t, at(i)), ty(t, at(behind_label(i, label)), false)),
        passes_on(external_fn_param(t, at(i)), ty(t, at(behind_label(i, label)), false)),
{
}

/// An external function needs a name and parameters in parentheses.
pub proof fn what_an_external_function_needs(
    t: Toks,
    i: nat,
    start: usize,
    public: bool,
    name: Text,
    k: nat,
)
    ensures
        ({
            let whole = external_fn(t, at(i), start, public);
            let params = series(
                external_fn_param_in(t),
                t,
                Some(Tok::Comma),
                Seq::empty(),
                at(i + 2),
            );
            &&& passes_on(whole, expect_name(t, at(i)))
            &&& is_name(t, i, name) && !is_tok(t, i + 1, Tok::Lpar) ==> lacks(
                whole,
                t,
                i + 1,
                Tok::Lpar,
            )
            &&& is_name(t, i, name) && is_tok(t, i + 1, Tok::Lpar) ==> needs(
                whole,
                params,
                t,
                k,
                Tok::Rpar,
            )
            &&& is_name(t, i, name) && is_tok(t, i + 1, Tok::Lpar) && stops(params, k) && is_tok(
                t,
                k,
                Tok::Rpar,
            ) ==> passes_on(
                whole,
                external_fn_body(t, at(k + 1), start, public, name, params.res->Ok_0),
            )
        }),
{
    reveal(external_fn);
    lemma_lacks(t, i + 1, Tok::Lpar);
    lemma_lacks(t, k, Tok::Rpar);
}

/// Behind its parameters an external function needs an arrow, a type, `=`, and two strings. Where
/// the type is missing, the error is located at the arrow.
pub proof fn what_the_end_of_an_external_function_needs(
    t: Toks,
    i: nat,
    start: usize,
    public: bool,
    name: Text,
    args: Seq<ExternalFnArgView>,
    k: nat,
    m: nat,
    n: nat,
)
    ensures
        ({
            let whole = external_fn_body(t, at(i), start, public, name, args);
            let typ = ty(t, at(i + 1), false);
            let module = expect_string(t, at(k + 1));
            let fun = expect_string(t, at(m));
            &&& !is_tok(t, i, Tok::RArrow) ==> lacks(whole, t, i, Tok::RArrow)
            &&& is_tok(t, i, Tok::RArrow) ==> needs(whole, typ, t, k, Tok::Equal)
            &&& is_tok(t, i, Tok::RArrow) && stops(typ, k) && is_tok(t, k, Tok::Equal) ==> {
                &&& passes_on(whole, module)
                &&& stops(module, m) ==> passes_on(whole, fun)
                &&& stops(module, m) && stops(fun, n) && nothing(typ) ==> whole == error_at::<
                    Option<StatementView>,
                >(ParseErrorType::ExpectedType, span(begin(t, i), end(t, i)), at(n))
            }
        }),
{
    reveal(external_fn_body);
    lemma_lacks(t, i, Tok::RArrow);
    lemma_lacks(t, k, Tok::Equal);
}

/// A module constant needs a name and `=`. An error in its type or its value is passed on.
pub proof fn what_a_module_constant_needs(t: Toks, i: nat, public: bool, name: Text, k: nat)
    ensures
        ({
            let whole = module_const(t, at(i), public);
            let typ = type_annotation(t, at(i + 1), Tok::Colon, true);
            &&& passes_on(whole, expect_name(t, at(i)))
            &&& is_name(t, i, name) ==> needs(whole, typ, t, k, Tok::Equal)
            &&& is_name(t, i, name) && stops(typ, k) && is_tok(t, k, Tok::Equal) ==> passes_on(
                whole,
                const_value(t, at(k + 1)),
            )
        }),
{
    reveal(module_const);
    lemma_lacks(t, k, Tok::Equal);
}

/// An import needs a path. A dot behind it needs names in braces, and `as` needs a name.
pub proof fn what_an_import_needs(t: Toks, i: nat, k: nat, m: nat)
    ensures
        ({
            let whole = import(t, at(i));
            let path = import_path(t, at(i), 0, Seq::empty());
            let names = unqualified_imports(t, at(k + 2), Seq::empty());
            &&& passes_on(whole, path)
            &&& stops(path, k) && is_tok(t, k, Tok::Dot) ==> {
                &&& !is_tok(t, k + 1, Tok::Lbrace) ==> lacks(whole, t, k + 1, Tok::Lbrace)
                &&& is_tok(t, k + 1, Tok::Lbrace) ==> needs(whole, names, t, m, Tok::Rbrace)
                &&& is_tok(t, k + 1, Tok::Lbrace) && stops(names, m) && is_tok(t, m, Tok::Rbrace)
                    && is_tok(t, m + 1, Tok::As) ==> passes_on(whole, expect_name(t, at(m + 2)))
            }
            &&& stops(path, k) && is_tok(t, k, Tok::As) ==> passes_on(
                whole,
                expect_name(t, at(k + 1)),
            )
        }),
{
    reveal(import);
    let names = unqualified_in_braces(t, at(k + 1));
    let alias = maybe_alias(t, at(m + 1));
    lemma_lacks(t, k + 1, Tok::Lbrace);
    lemma_lacks(t, m, Tok::Rbrace);
}

/// A path needs a name, also behind each slash.
pub proof fn what_a_path_needs(t: Toks, i: nat, start: usize, before: Seq<Text>, name: Text)
    ensures
        passes_on(import_path(t, at(i), start, before), expect_name(t, at(i))),
        is_name(t, i, name) && is_tok(t, i + 1, Tok::Slash) ==> passes_on(
            import_path(t, at(i), start, before),
            expect_name(t, at(i + 2)),
        ),
{
    if is_name(t, i, name) && is_tok(t, i + 1, Tok::Slash) {
        let path_start = if before.len() == 0 {
            begin(t, i)
        } else {
            start
        };
        let rest = import_path(t, at(i + 2), path_start, before.push(name));
        assert(passes_on(rest, expect_name(t, at(i + 2))));
    }
}

/// `as` behind an imported name needs a name.
pub proof fn what_an_imported_name_needs(
    t: Toks,
    i: nat,
    before: Seq<UnqualifiedImportView>,
    name: Text,
)
    requires
        is_name(t, i, name) || is_upname(t, i, name),
        is_tok(t, i + 1, Tok::As),
    ensures
        passes_on(unqualified_imports(t, at(i), before), expect_name(t, at(i + 2))),
{
    let alias = maybe_alias(t, at(i + 1));
    assert(passes_on(alias, expect_name(t, at(i + 2))));
}

} // verus!
