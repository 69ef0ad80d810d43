//! The rules of definitions.

use crate::error::ParseErrorType;
use crate::grammar::basics::{error_at, found, nothing, series, span, Step};
use crate::grammar::constants::const_value;
use crate::grammar::exprs::function;
use crate::grammar::statements::{
    constructor, constructor_in, custom_type, external_fn, external_fn_body, external_fn_param,
    external_fn_param_in, external_type, import, import_path, module_const, statement,
    type_constructor_arg, type_constructor_arg_in, type_head, type_param_in, unqualified_imports,
};
use crate::grammar::types::ty;
use crate::laws::places::advances;
use crate::laws::places::statements::{
    constructor_is_found, external_fn_param_is_found, statement_is_found,
    type_constructor_arg_is_found,
};
use crate::laws::places::types::type_is_found;
use crate::laws::rules::{
    annotated, at, begin, behind_label, end, in_a_row, is_name, is_string, is_tok, is_upname,
    labelled, lemma_in_a_row, lemma_listed, listed, Row,
};
use crate::model::{
    ConstantView, ExternalFnArgView, RecordConstructorArgView, RecordConstructorView, StatementView,
    Text, TypeView, UnqualifiedImportView,
};
use crate::stream::{Cursor, Toks};
use crate::token::Tok;
use vstd::prelude::*;

verus! {

/// Whether names stand from one position up to another, with a comma between each two of them and
/// possibly one behind the last.
pub open spec fn names_listed(t: Toks, open: nat, close: nat, names: Seq<Text>) -> bool {
    let n = names.len();
    &&& forall|k: int| 0 <= k < n ==> is_name(t, (open + 2 * k) as nat, #[trigger] names[k])
    &&& forall|k: int|
        #![trigger names[k]]
        0 <= k < n - 1 ==> is_tok(t, (open + 2 * k + 1) as nat, Tok::Comma)
    &&& n == 0 ==> close == open
    &&& n > 0 ==> close == open + 2 * n - 1 || close == open + 2 * n && is_tok(
        t,
        (close - 1) as nat,
        Tok::Comma,
    )
}

/// Whether the name of a type stands at a position, with the names of its parameters in parentheses
/// behind it if there are any, and up to which position.
pub open spec fn type_heading(t: Toks, i: nat, name: Text, params: Seq<Text>, j: nat) -> bool {
    &&& is_upname(t, i, name)
    &&& {
        ||| !is_tok(t, i + 1, Tok::Lpar) && params.len() == 0 && j == i + 1
        ||| is_tok(t, i + 1, Tok::Lpar) && i + 2 < j && names_listed(
            t,
            i + 2,
            (j - 1) as nat,
            params,
        ) && is_tok(t, (j - 1) as nat, Tok::Rpar)
    }
}

proof fn lemma_heading(t: Toks, i: nat, name: Text, params: Seq<Text>, j: nat)
    requires
        type_heading(t, i, name, params, j),
    ensures
        type_head(t, at(i)) == found(
            (begin(t, i), name, params, end(t, (j - 1) as nat)),
            at(j),
        ),
        i < j <= t.len(),
{
    if is_tok(t, i + 1, Tok::Lpar) {
        let p = type_param_in(t);
        let close = (j - 1) as nat;
        let n = params.len();
        let row = Row {
            starts: Seq::new(n, |k: int| (i + 2 + 2 * k) as nat),
            stops: Seq::new(n, |k: int| (i + 2 + 2 * k + 1) as nat),
            things: Seq::new(
                n,
                |k: int|
                    (
                        begin(t, (i + 2 + 2 * k) as nat),
                        params[k],
                        end(t, (i + 2 + 2 * k) as nat),
                    ),
            ),
        };
        assert(listed(t, p, Tok::Comma, i + 2, close, row)) by {
            assert forall|k: int| #![trigger row.things[k]] 0 <= k < n implies {
                &&& p(at(row.starts[k])) == found(Some(row.things[k]), at(row.stops[k]))
                &&& !is_tok(t, row.starts[k], Tok::Comma)
            } by {
                assert(is_name(t, (i + 2 + 2 * k) as nat, params[k]));
            }
            assert forall|k: int| #![trigger row.stops[k]] 0 <= k < n - 1 implies {
                &&& is_tok(t, row.stops[k], Tok::Comma)
                &&& row.starts[k + 1] == row.stops[k] + 1
            } by {
                assert(is_name(t, (i + 2 + 2 * k) as nat, params[k]));
            }
        }
        lemma_listed(t, p, p, Tok::Comma, i + 2, close, row);
        assert(row.things.map_values(|n: (usize, Text, usize)| n.1) =~= params);
    } else {
        assert(params =~= Seq::empty());
    }
}

/// `external type` before the name of a type is an external type, which is public behind `pub`.
pub proof fn an_external_type(
    t: Toks,
    i: nat,
    public: bool,
    name: Text,
    params: Seq<Text>,
    j: nat,
)
    requires
        public ==> is_tok(t, i, Tok::Pub),
        ({
            let k = keyword(i, public);
            &&& is_tok(t, k, Tok::External)
            &&& is_tok(t, k + 1, Tok::Type)
            &&& type_heading(t, k + 2, name, params, j)
        }),
    ensures
        statement(t, at(i)) == found(
            Some(
                StatementView::ExternalType {
                    location: span(begin(t, i), end(t, (j - 1) as nat)),
                    public,
                    name,
                    args: params,
                    doc: None,
                },
            ),
            at(j),
        ),
{
    reveal(statement);
    reveal(external_type);
    lemma_heading(t, keyword(i, public) + 2, name, params, j);
}

/// The position of the first keyword of a definition, which stands behind `pub` if that is there.
pub open spec fn keyword(i: nat, public: bool) -> nat {
    if public {
        i + 1
    } else {
        i
    }
}

/// Whether the keywords of a custom type stand at a position, and up to which position.
pub open spec fn type_keywords(t: Toks, i: nat, public: bool, opaque: bool, j: nat) -> bool {
    if opaque {
        &&& public
        &&& is_tok(t, i, Tok::Pub)
        &&& is_tok(t, i + 1, Tok::Opaque)
        &&& is_tok(t, i + 2, Tok::Type)
        &&& j == i + 3
    } else if public {
        is_tok(t, i, Tok::Pub) && is_tok(t, i + 1, Tok::Type) && j == i + 2
    } else {
        is_tok(t, i, Tok::Type) && j == i + 1
    }
}

proof fn lemma_type(t: Toks, i: nat, public: bool, opaque: bool, j: nat)
    requires
        type_keywords(t, i, public, opaque, j),
    ensures
        statement(t, at(i)) == custom_type(t, at(j), begin(t, i), public, opaque),
{
    reveal(statement);
}

/// `type`, a name with parameters, `=` and a type are an alias of that type. It has the parameters
/// that stand in parentheses behind its name, in their order, and is public behind `pub`.
pub proof fn a_type_alias(
    t: Toks,
    i: nat,
    public: bool,
    name: Text,
    params: Seq<Text>,
    k: nat,
    j: nat,
    typ: TypeView,
    m: nat,
)
    requires
        type_keywords(t, i, public, false, k),
        type_heading(t, k, name, params, j),
        is_tok(t, j, Tok::Equal),
        ty(t, at(j + 1), false) == found(Some(typ), at(m)),
    ensures
        statement(t, at(i)) == found(
            Some(
                StatementView::TypeAlias {
                    location: span(begin(t, i), typ.location().end),
                    alias: name,
                    args: params,
                    resolved_type: typ,
                    public,
                    doc: None,
                },
            ),
            at(m),
        ),
{
    lemma_type(t, i, public, false, k);
    reveal(custom_type);
    lemma_heading(t, k, name, params, j);
}

/// An alias cannot be opaque.
pub proof fn no_opaque_alias(t: Toks, i: nat, name: Text, params: Seq<Text>, k: nat, j: nat)
    requires
        type_keywords(t, i, true, true, k),
        type_heading(t, k, name, params, j),
        is_tok(t, j, Tok::Equal),
    ensures
        statement(t, at(i)) == error_at::<Option<StatementView>>(
            ParseErrorType::OpaqueTypeAlias,
            span(begin(t, i), end(t, (j - 1) as nat)),
            at(j + 1),
        ),
{
    lemma_type(t, i, true, true, k);
    reveal(custom_type);
    lemma_heading(t, k, name, params, j);
}

/// Behind `=` an alias needs a type.
pub proof fn an_alias_needs_a_type(
    t: Toks,
    i: nat,
    public: bool,
    name: Text,
    params: Seq<Text>,
    k: nat,
    j: nat,
)
    requires
        type_keywords(t, i, public, false, k),
        type_heading(t, k, name, params, j),
        is_tok(t, j, Tok::Equal),
        nothing(ty(t, at(j + 1), false)),
    ensures
        statement(t, at(i)) == error_at::<Option<StatementView>>(
            ParseErrorType::ExpectedType,
            span(begin(t, j), end(t, j)),
            at(j + 1),
        ),
{
    lemma_type(t, i, public, false, k);
    reveal(custom_type);
    lemma_heading(t, k, name, params, j);
    type_is_found(t, at(j + 1), false);
}

/// `type`, a name with parameters and constructors in braces are a custom type. It has the
/// parameters that stand in parentheses behind its name and all constructors, each in their order.
/// It is public behind `pub`, and opaque behind `pub opaque`.
pub proof fn a_custom_type(
    t: Toks,
    i: nat,
    public: bool,
    opaque: bool,
    name: Text,
    params: Seq<Text>,
    k: nat,
    j: nat,
    row: Row<RecordConstructorView>,
    m: nat,
)
    requires
        type_keywords(t, i, public, opaque, k),
        type_heading(t, k, name, params, j),
        is_tok(t, j, Tok::Lbrace),
        in_a_row(constructor_in(t), j + 1, m, row),
        row.things.len() > 0,
        is_tok(t, m, Tok::Rbrace),
    ensures
        statement(t, at(i)) == found(
            Some(
                StatementView::CustomType {
                    location: span(begin(t, i), end(t, (j - 1) as nat)),
                    name,
                    parameters: params,
                    public,
                    constructors: row.things,
                    doc: None,
                    opaque,
                    typed_parameters: Seq::empty(),
                },
            ),
            at(m + 1),
        ),
{
    lemma_type(t, i, public, opaque, k);
    reveal(custom_type);
    lemma_heading(t, k, name, params, j);
    lemma_constructors(t, j + 1, m, row);
}

proof fn lemma_constructors(t: Toks, j: nat, m: nat, row: Row<RecordConstructorView>)
    requires
        j <= t.len(),
        in_a_row(constructor_in(t), j, m, row),
        is_tok(t, m, Tok::Rbrace),
    ensures
        series(constructor_in(t), t, None, Seq::empty(), at(j)) == found(
            row.things,
            at(m),
        ),
{
    let p = constructor_in(t);
    assert forall|d: Cursor| j <= d.at <= t.len() implies #[trigger] p(d) == p(d) && advances(
        t,
        d,
        p(d),
    ) by {
        constructor_is_found(t, d);
    }
    assert(row.things.take(0) =~= Seq::empty());
    lemma_in_a_row(t, p, p, j, m, row, 0);
}

/// A custom type needs constructors: none in its braces, or neither braces nor a type, are an
/// error.
pub proof fn a_custom_type_needs_constructors(
    t: Toks,
    i: nat,
    public: bool,
    opaque: bool,
    name: Text,
    params: Seq<Text>,
    k: nat,
    j: nat,
)
    requires
        type_keywords(t, i, public, opaque, k),
        type_heading(t, k, name, params, j),
        is_tok(t, j, Tok::Lbrace) && is_tok(t, j + 1, Tok::Rbrace) || !is_tok(t, j, Tok::Lbrace)
            && !is_tok(t, j, Tok::Equal),
    ensures
        statement(t, at(i)) == error_at::<Option<StatementView>>(
            ParseErrorType::NoConstructors,
            span(begin(t, i), end(t, (j - 1) as nat)),
            if is_tok(t, j, Tok::Lbrace) {
                at(j + 2)
            } else {
                at(j)
            },
        ),
{
    lemma_type(t, i, public, opaque, k);
    reveal(custom_type);
    lemma_heading(t, k, name, params, j);
    if is_tok(t, j, Tok::Lbrace) {
        let row = Row { starts: Seq::empty(), stops: Seq::empty(), things: Seq::empty() };
        lemma_constructors(t, j + 1, j + 1, row);
    }
}

/// The name of a constructor, without parentheses behind it, is a constructor without arguments.
pub proof fn a_constructor_without_arguments(t: Toks, i: nat, name: Text)
    requires
        is_upname(t, i, name),
        !is_tok(t, i + 1, Tok::Lpar),
    ensures
        constructor(t, at(i)) == found(
            Some(
                RecordConstructorView {
                    location: span(begin(t, i), end(t, i)),
                    name,
                    args: Seq::empty(),
                    documentation: None,
                },
            ),
            at(i + 1),
        ),
{
}

/// The name of a constructor with arguments in parentheses behind it is a constructor with these
/// arguments in their order, located up to the later of the ends of the name and the parentheses.
pub proof fn a_constructor_with_arguments(
    t: Toks,
    i: nat,
    name: Text,
    row: Row<RecordConstructorArgView>,
    k: nat,
)
    requires
        is_upname(t, i, name),
        is_tok(t, i + 1, Tok::Lpar),
        listed(t, type_constructor_arg_in(t), Tok::Comma, i + 2, k, row),
        is_tok(t, k, Tok::Rpar),
    ensures
        constructor(t, at(i)) == found(
            Some(
                RecordConstructorView {
                    location: span(
                        begin(t, i),
                        if end(t, i) <= end(t, k) {
                            end(t, k)
                        } else {
                            end(t, i)
                        },
                    ),
                    name,
                    args: row.things,
                    documentation: None,
                },
            ),
            at(k + 1),
        ),
{
    let p = type_constructor_arg_in(t);
    assert forall|d: Cursor| i + 2 <= d.at <= t.len() implies #[trigger] p(d) == p(d) && advances(
        t,
        d,
        p(d),
    ) by {
        type_constructor_arg_is_found(t, d);
    }
    assert(p(at(k)) == found(None::<RecordConstructorArgView>, at(k))) by {
        assert(nothing(ty(t, at(k), false)));
    }
    lemma_listed(t, p, p, Tok::Comma, i + 2, k, row);
}

/// A type is an argument of a constructor, without a label or with the one that stands before it
/// and a colon. With a label it is located at the label and the colon.
pub proof fn an_argument_of_a_constructor(
    t: Toks,
    i: nat,
    label: Option<Text>,
    typ: TypeView,
    j: nat,
)
    requires
        labelled(t, i, label),
        ty(t, at(behind_label(i, label)), false) == found(Some(typ), at(j)),
    ensures
        type_constructor_arg(t, at(i)) == found(
            Some(
                RecordConstructorArgView {
                    label,
                    ast: typ,
                    location: if label is Some {
                        span(begin(t, i), end(t, i + 1))
                    } else {
                        typ.location()
                    },
                },
            ),
            at(j),
        ),
{
}

/// A type is a parameter of an external function, without a label or with the one that stands
/// before it and a colon.
pub proof fn a_parameter_of_an_external_function(
    t: Toks,
    i: nat,
    label: Option<Text>,
    typ: TypeView,
    j: nat,
)
    requires
        labelled(t, i, label),
        ty(t, at(behind_label(i, label)), false) == found(Some(typ), at(j)),
    ensures
        external_fn_param(t, at(i)) == found(
            Some(
                ExternalFnArgView {
                    location: if label is Some {
                        span(begin(t, i), typ.location().end)
                    } else {
                        typ.location()
                    },
                    label,
                    annotation: typ,
                },
            ),
            at(j),
        ),
{
}

/// `external fn`, a name, parameters in parentheses, an arrow, a type, `=` and two strings are an
/// external function: the type is what it returns, the first string its module and the second its
/// name there. It has all parameters in their order and is public behind `pub`.
pub proof fn an_external_function(
    t: Toks,
    i: nat,
    public: bool,
    name: Text,
    row: Row<ExternalFnArgView>,
    j: nat,
    retrn: TypeView,
    k: nat,
    module: Text,
    fun: Text,
)
    requires
        public ==> is_tok(t, i, Tok::Pub),
        ({
            let key = keyword(i, public);
            &&& is_tok(t, key, Tok::External)
            &&& is_tok(t, key + 1, Tok::Fn)
            &&& is_name(t, key + 2, name)
            &&& is_tok(t, key + 3, Tok::Lpar)
            &&& listed(t, external_fn_param_in(t), Tok::Comma, key + 4, j, row)
        }),
        is_tok(t, j, Tok::Rpar),
        is_tok(t, j + 1, Tok::RArrow),
        ty(t, at(j + 2), false) == found(Some(retrn), at(k)),
        is_tok(t, k, Tok::Equal),
        is_string(t, k + 1, module),
        is_string(t, k + 2, fun),
    ensures
        statement(t, at(i)) == found(
            Some(
                StatementView::ExternalFn {
                    location: span(begin(t, i), end(t, k + 2)),
                    public,
                    args: row.things,
                    name,
                    retrn,
                    module,
                    fun,
                    doc: None,
                },
            ),
            at(k + 3),
        ),
{
    let key = keyword(i, public);
    lemma_external_params(t, key + 4, j, row);
    lemma_external_end(t, j + 1, begin(t, i), public, name, row.things, retrn, k, module, fun);
    assert(external_fn(t, at(key + 2), begin(t, i), public) == external_fn_body(
        t,
        at(j + 1),
        begin(t, i),
        public,
        name,
        row.things,
    )) by {
        reveal(external_fn);
    }
    assert(statement(t, at(i)) == external_fn(t, at(key + 2), begin(t, i), public)) by {
        reveal(statement);
    }
}

proof fn lemma_external_params(t: Toks, i: nat, j: nat, row: Row<ExternalFnArgView>)
    requires
        i <= t.len(),
        listed(t, external_fn_param_in(t), Tok::Comma, i, j, row),
        is_tok(t, j, Tok::Rpar),
    ensures
        series(external_fn_param_in(t), t, Some(Tok::Comma), Seq::empty(), at(i)) == found(
            row.things,
            at(j),
        ),
{
    let p = external_fn_param_in(t);
    assert forall|d: Cursor| i <= d.at <= t.len() implies #[trigger] p(d) == p(d) && advances(
        t,
        d,
        p(d),
    ) by {
        external_fn_param_is_found(t, d);
    }
    assert(p(at(j)) == found(None::<ExternalFnArgView>, at(j))) by {
        assert(nothing(ty(t, at(j), false)));
    }
    lemma_listed(t, p, p, Tok::Comma, i, j, row);
}

proof fn lemma_external_end(
    t: Toks,
    i: nat,
    start: usize,
    public: bool,
    name: Text,
    args: Seq<ExternalFnArgView>,
    retrn: TypeView,
    k: nat,
    module: Text,
    fun: Text,
)
    requires
        is_tok(t, i, Tok::RArrow),
        ty(t, at(i + 1), false) == found(Some(retrn), at(k)),
        is_tok(t, k, Tok::Equal),
        is_string(t, k + 1, module),
        is_string(t, k + 2, fun),
    ensures
        external_fn_body(t, at(i), start, public, name, args) == found(
            Some(
                StatementView::ExternalFn {
                    location: span(start, end(t, k + 2)),
                    public,
                    args,
                    name,
                    retrn,
                    module,
                    fun,
                    doc: None,
                },
            ),
            at(k + 3),
        ),
{
    reveal(external_fn_body);
}

/// `const`, a name, `=` and a constant are a module constant, with the type that stands behind a
/// colon if there is one. It starts at its name and is public behind `pub`.
pub proof fn a_module_constant(
    t: Toks,
    i: nat,
    public: bool,
    name: Text,
    annotation: Option<TypeView>,
    j: nat,
    value: ConstantView,
    m: nat,
)
    requires
        public ==> is_tok(t, i, Tok::Pub),
        ({
            let k = keyword(i, public);
            &&& is_tok(t, k, Tok::Const)
            &&& is_name(t, k + 1, name)
            &&& annotated(t, k + 2, Tok::Colon, true, annotation, j)
        }),
        is_tok(t, j, Tok::Equal),
        const_value(t, at(j + 1)) == found(Some(value), at(m)),
    ensures
        statement(t, at(i)) == found(
            Some(
                StatementView::ModuleConstant {
                    doc: None,
                    location: span(begin(t, keyword(i, public) + 1), 0),
                    public,
                    name,
                    annotation,
                    value: Box::new(value),
                },
            ),
            at(m),
        ),
{
    reveal(statement);
    reveal(module_const);
}

/// Behind `=` a module constant needs a value.
pub proof fn a_module_constant_needs_a_value(
    t: Toks,
    i: nat,
    public: bool,
    name: Text,
    annotation: Option<TypeView>,
    j: nat,
)
    requires
        public ==> is_tok(t, i, Tok::Pub),
        ({
            let k = keyword(i, public);
            &&& is_tok(t, k, Tok::Const)
            &&& is_name(t, k + 1, name)
            &&& annotated(t, k + 2, Tok::Colon, true, annotation, j)
        }),
        is_tok(t, j, Tok::Equal),
        const_value(t, at(j + 1)) == found(None::<ConstantView>, at(j + 1)),
    ensures
        statement(t, at(i)) == error_at::<Option<StatementView>>(
            ParseErrorType::NoValueAfterEqual,
            span(begin(t, j), end(t, j)),
            at(j + 1),
        ),
{
    reveal(statement);
    reveal(module_const);
}

/// Whether the names of a path stand from a position on, with a slash between each two of them.
pub open spec fn path_at(t: Toks, i: nat, names: Seq<Text>) -> bool {
    let n = names.len();
    &&& n > 0
    &&& forall|k: int| 0 <= k < n ==> is_name(t, (i + 2 * k) as nat, #[trigger] names[k])
    &&& forall|k: int|
        #![trigger names[k]]
        0 <= k < n - 1 ==> is_tok(t, (i + 2 * k + 1) as nat, Tok::Slash)
    &&& !is_tok(t, (i + 2 * n - 1) as nat, Tok::Slash)
    &&& !is_tok(t, (i + 2 * n - 1) as nat, Tok::SlashDot)
}

/// Whether `as` and a name stand at a position, up to another, or there is no `as`.
pub open spec fn aliased(t: Toks, i: nat, as_name: Option<Text>, j: nat) -> bool {
    match as_name {
        Some(name) => is_tok(t, i, Tok::As) && is_name(t, i + 1, name) && j == i + 2,
        None => !is_tok(t, i, Tok::As) && j == i,
    }
}

/// Whether a name stands at a position that is imported without its module, up to another, with the
/// alias that it has if it has one.
pub open spec fn imported(t: Toks, i: nat, item: UnqualifiedImportView, j: nat) -> bool {
    &&& is_name(t, i, item.name) || is_upname(t, i, item.name)
    &&& item.location == span(begin(t, i), end(t, i))
    &&& aliased(t, i + 1, item.as_name, j)
}

/// Whether imported names stand from one position up to another, with a comma between each two of
/// them and possibly one behind the last.
pub open spec fn imports_listed(
    t: Toks,
    open: nat,
    close: nat,
    row: Row<UnqualifiedImportView>,
) -> bool {
    let n = row.things.len();
    &&& row.fits()
    &&& n == 0 ==> close == open
    &&& n > 0 ==> {
        &&& row.starts[0] == open
        &&& close == row.stops[n - 1] || is_tok(t, row.stops[n - 1], Tok::Comma) && close
            == row.stops[n - 1] + 1
    }
    &&& forall|k: int|
        0 <= k < n ==> imported(t, row.starts[k], #[trigger] row.things[k], row.stops[k])
    &&& forall|k: int|
        #![trigger row.things[k]]
        0 <= k < n - 1 ==> is_tok(t, row.stops[k], Tok::Comma) && row.starts[k + 1]
            == row.stops[k] + 1
}

/// Whether a dot and imported names in braces stand at a position, up to another, or there is no
/// dot.
pub open spec fn unqualified_at(t: Toks, i: nat, row: Row<UnqualifiedImportView>, j: nat) -> bool {
    ||| !is_tok(t, i, Tok::Dot) && j == i && row.things.len() == 0
    ||| {
        &&& is_tok(t, i, Tok::Dot)
        &&& is_tok(t, i + 1, Tok::Lbrace)
        &&& j > 0
        &&& imports_listed(t, i + 2, (j - 1) as nat, row)
        &&& is_tok(t, (j - 1) as nat, Tok::Rbrace)
    }
}

/// `import` and a path are an import of the module with the names of the path. It has the names in
/// braces behind the path, if there are any, in their order, each with its alias. Behind both, `as`
/// and a name give it that name; without `as` it has none, whether there are names in braces
/// or not.
pub proof fn an_import(
    t: Toks,
    i: nat,
    module: Seq<Text>,
    row: Row<UnqualifiedImportView>,
    j: nat,
    as_name: Option<Text>,
    k: nat,
)
    requires
        is_tok(t, i, Tok::Import),
        path_at(t, i + 1, module),
        unqualified_at(t, i + 2 * module.len(), row, j),
        aliased(t, j, as_name, k),
    ensures
        statement(t, at(i)) == found(
            Some(
                StatementView::Import {
                    location: span(
                        begin(t, i + 1),
                        end(t, (i + 2 * module.len() - 1) as nat),
                    ),
                    module,
                    as_name,
                    unqualified: row.things,
                },
            ),
            at(k),
        ),
{
    reveal(statement);
    reveal(import);
    assert(module.take(0) =~= Seq::empty());
    lemma_path(t, i + 1, module, 0, 0);
    let behind = i + 2 * module.len();
    if is_tok(t, behind, Tok::Dot) {
        assert(row.things.take(0) =~= Seq::empty());
        lemma_imports(t, behind + 2, (j - 1) as nat, row, 0);
    } else {
        assert(row.things =~= Seq::empty());
    }
}

proof fn lemma_path(t: Toks, i: nat, names: Seq<Text>, k: nat, start: usize)
    requires
        path_at(t, i, names),
        k < names.len(),
        k > 0 ==> start == begin(t, i),
    ensures
        import_path(t, at(i + 2 * k), start, names.take(k as int)) == found(
            (begin(t, i), names, end(t, (i + 2 * names.len() - 2) as nat)),
            at((i + 2 * names.len() - 1) as nat),
        ),
        i + 2 * names.len() - 1 <= t.len(),
    decreases names.len() - k,
{
    assert(is_name(t, (i + 2 * k) as nat, names[k as int]));
    assert(names.take(k as int).push(names[k as int]) =~= names.take(k + 1int));
    if k + 1 < names.len() {
        assert(is_tok(t, (i + 2 * k + 1) as nat, Tok::Slash));
        lemma_path(t, i, names, k + 1, begin(t, i));
    } else {
        assert(names.take(k + 1int) =~= names);
    }
}

proof fn lemma_imports(
    t: Toks,
    open: nat,
    close: nat,
    row: Row<UnqualifiedImportView>,
    k: int,
)
    requires
        imports_listed(t, open, close, row),
        is_tok(t, close, Tok::Rbrace),
        0 <= k <= row.things.len(),
        k == row.things.len() && k > 0 ==> close == row.stops[k - 1] + 1,
    ensures
        unqualified_imports(
            t,
            at(
                if k < row.things.len() {
                    row.starts[k]
                } else {
                    close
                },
            ),
            row.things.take(k),
        ) == found(row.things, at(close)),
    decreases row.things.len() - k,
{
    let n = row.things.len();
    if k == n {
        assert(row.things.take(k) =~= row.things);
    } else {
        let item = row.things[k];
        assert(imported(t, row.starts[k], row.things[k], row.stops[k]));
        assert(row.things.take(k).push(item) =~= row.things.take(k + 1));
        assert(UnqualifiedImportView {
            location: span(begin(t, row.starts[k]), end(t, row.starts[k])),
            name: item.name,
            as_name: item.as_name,
        } == item);
        if k + 1 < n || close != row.stops[k] {
            lemma_imports(t, open, close, row, k + 1);
        } else {
            assert(row.things.take(k + 1) =~= row.things);
        }
    }
}

/// What starts a definition: its keywords. With them a definition or an error is found, and without
/// them nothing.
pub proof fn what_starts_a_definition(t: Toks, i: nat)
    requires
        i <= t.len(),
    ensures
        !nothing(statement(t, at(i))) <==> {
            ||| is_tok(t, i, Tok::Import)
            ||| is_tok(t, i, Tok::Const)
            ||| is_tok(t, i, Tok::Fn)
            ||| is_tok(t, i, Tok::Type)
            ||| is_tok(t, i, Tok::External) && is_tok(t, i + 1, Tok::Type)
            ||| is_tok(t, i, Tok::External) && is_tok(t, i + 1, Tok::Fn)
            ||| is_tok(t, i, Tok::Pub) && is_tok(t, i + 1, Tok::Const)
            ||| is_tok(t, i, Tok::Pub) && is_tok(t, i + 1, Tok::Fn)
            ||| is_tok(t, i, Tok::Pub) && is_tok(t, i + 1, Tok::Type)
            ||| is_tok(t, i, Tok::Pub) && is_tok(t, i + 1, Tok::Opaque)
            ||| is_tok(t, i, Tok::Pub) && is_tok(t, i + 1, Tok::External)
        },
        nothing(statement(t, at(i))) ==> statement(t, at(i)).to == at(i),
{
    statement_is_found(t, at(i));
    lemma_definitions_are_found(t);
    reveal(statement);
}

proof fn lemma_definitions_are_found(t: Toks)
    ensures
        forall|c: Cursor| !nothing(#[trigger] import(t, c)),
        forall|c: Cursor, public: bool| !nothing(#[trigger] module_const(t, c, public)),
        forall|c: Cursor, start: usize, public: bool|
            !nothing(#[trigger] external_type(t, c, start, public)),
        forall|c: Cursor, start: usize, public: bool|
            !nothing(#[trigger] external_fn(t, c, start, public)),
        forall|c: Cursor, start: usize, public: bool, opaque: bool|
            !nothing(#[trigger] custom_type(t, c, start, public, opaque)),
        forall|c: Cursor, start: usize, public: bool, is_anon: bool|
            !nothing(#[trigger] function(t, c, start, public, is_anon)),
{
    reveal(import);
    reveal(module_const);
    reveal(external_type);
    reveal(external_fn);
    reveal(external_fn_body);
    reveal(custom_type);
}

/// A definition that is public, starts at an offset, and is otherwise the same. A module constant
/// starts at its name.
pub open spec fn made_public(definition: StatementView, start: usize) -> StatementView {
    match definition {
        StatementView::Fn {
            location,
            end_location,
            name,
            args,
            body,
            return_annotation,
            doc,
            ..
        } => StatementView::Fn {
            location: span(start, location.end),
            end_location,
            name,
            args,
            body,
            public: true,
            return_annotation,
            doc,
        },
        StatementView::TypeAlias { location, alias, args, resolved_type, doc, .. } =>
            StatementView::TypeAlias {
            location: span(start, location.end),
            alias,
            args,
            resolved_type,
            public: true,
            doc,
        },
        StatementView::CustomType {
            location,
            name,
            parameters,
            constructors,
            doc,
            opaque,
            typed_parameters,
            ..
        } => StatementView::CustomType {
            location: span(start, location.end),
            name,
            parameters,
            public: true,
            constructors,
            doc,
            opaque,
            typed_parameters,
        },
        StatementView::ExternalFn { location, args, name, retrn, module, fun, doc, .. } =>
            StatementView::ExternalFn {
            location: span(start, location.end),
            public: true,
            args,
            name,
            retrn,
            module,
            fun,
            doc,
        },
        StatementView::ExternalType { location, name, args, doc, .. } =>
            StatementView::ExternalType {
            location: span(start, location.end),
            public: true,
            name,
            args,
            doc,
        },
        StatementView::ModuleConstant { doc, location, name, annotation, value, .. } =>
            StatementView::ModuleConstant { doc, location, public: true, name, annotation, value },
        StatementView::Import { .. } => definition,
    }
}

/// Whether two steps end at one place, and find the same definition but that the second is public
/// and starts at an offset. An error comes with both or with none, of one kind and with one end.
pub open spec fn same_but_public(
    without: Step<Option<StatementView>>,
    with: Step<Option<StatementView>>,
    start: usize,
) -> bool {
    &&& with.to == without.to
    &&& match (without.res, with.res) {
        (Ok(Some(definition)), Ok(Some(public))) => public == made_public(definition, start),
        (Ok(None), Ok(None)) => true,
        (Err(error), Err(other)) => {
            &&& other.fault == error.fault
            &&& other.location.end == error.location.end
        },
        _ => false,
    }
}

proof fn lemma_public_const(t: Toks, c: Cursor, start: usize)
    ensures
        same_but_public(module_const(t, c, false), module_const(t, c, true), start),
{
    reveal(module_const);
}

proof fn lemma_public_function(t: Toks, c: Cursor, first: usize, start: usize)
    ensures
        same_but_public(
            function(t, c, first, false, false),
            function(t, c, start, true, false),
            start,
        ),
{
}

proof fn lemma_public_type(t: Toks, c: Cursor, first: usize, start: usize)
    ensures
        same_but_public(
            custom_type(t, c, first, false, false),
            custom_type(t, c, start, true, false),
            start,
        ),
{
    reveal(custom_type);
}

proof fn lemma_public_external_type(t: Toks, c: Cursor, first: usize, start: usize)
    ensures
        same_but_public(
            external_type(t, c, first, false),
            external_type(t, c, start, true),
            start,
        ),
{
    reveal(external_type);
}

proof fn lemma_public_external_function(t: Toks, c: Cursor, first: usize, start: usize)
    ensures
        same_but_public(external_fn(t, c, first, false), external_fn(t, c, start, true), start),
{
    reveal(external_fn);
    assert forall|d: Cursor, name: Text, args: Seq<ExternalFnArgView>| same_but_public(
        #[trigger] external_fn_body(t, d, first, false, name, args),
        external_fn_body(t, d, start, true, name, args),
        start,
    ) by {
        reveal(external_fn_body);
    }
}

/// What is found behind `pub` is what is found without it at the same tokens, except that it is
/// public and starts at the `pub`. What can be parsed without `pub` can be parsed with it.
pub proof fn pub_makes_a_definition_public(t: Toks, i: nat)
    requires
        is_tok(t, i, Tok::Pub),
        is_tok(t, i + 1, Tok::Const) || is_tok(t, i + 1, Tok::Fn) || is_tok(t, i + 1, Tok::Type)
            || is_tok(t, i + 1, Tok::External) && (is_tok(t, i + 2, Tok::Type) || is_tok(
            t,
            i + 2,
            Tok::Fn,
        )),
    ensures
        same_but_public(statement(t, at(i + 1)), statement(t, at(i)), begin(t, i)),
        !nothing(statement(t, at(i))),
{
    let start = begin(t, i);
    let first = begin(t, i + 1);
    what_starts_a_definition(t, i);
    lemma_public_const(t, at(i + 2), start);
    lemma_public_function(t, at(i + 2), first, start);
    lemma_public_type(t, at(i + 2), first, start);
    lemma_public_external_type(t, at(i + 3), first, start);
    lemma_public_external_function(t, at(i + 3), first, start);
    reveal(statement);
}

/// Behind `pub opaque`, what is found behind `pub` is opaque and otherwise the same, if it is a
/// custom type.
pub proof fn opaque_hides_the_constructors(t: Toks, i: nat)
    requires
        is_tok(t, i, Tok::Pub),
        is_tok(t, i + 1, Tok::Opaque),
        is_tok(t, i + 2, Tok::Type),
        statement(t, at(i + 2)).res matches Ok(Some(StatementView::CustomType { .. })),
    ensures
        statement(t, at(i)).to == statement(t, at(i + 2)).to,
        match (statement(t, at(i + 2)).res, statement(t, at(i)).res) {
            (
                Ok(
                    Some(
                        StatementView::CustomType { location, name, parameters, constructors, .. },
                    ),
                ),
                Ok(Some(whole)),
            ) => whole == (StatementView::CustomType {
                location: span(begin(t, i), location.end),
                name,
                parameters,
                public: true,
                constructors,
                doc: None,
                opaque: true,
                typed_parameters: Seq::empty(),
            }),
            _ => false,
        },
{
    reveal(statement);
    reveal(custom_type);
}

} // verus!
