//! Laws of the trees that are found.

use crate::ast::BindingKind;
use crate::call::{call, filled, holes, ParserArgView};
use crate::error::{ErrorView, Fault, ParseErrorType};
use crate::grammar::basics::{expect_name, expect_one, expect_upname, one, series, span, Step};
use crate::grammar::exprs::{
    bound_value, case_clause, case_clause_from, case_expr, expression, expression_seq, expressions,
    function,
};
use crate::grammar::statements::{
    custom_type, external_fn, external_fn_body, external_type, import, import_path, module_const,
    statement,
};
use crate::grammar::types::{ty, ty_from, type_name_finish, types};
use crate::model::{ClauseView, ExprView, PatternView, StatementView, Text, TypeView};
use crate::number::{decimal, without_underscores};
use crate::stream::{after, ahead, from, next, peek, peek_second, Cursor, Toks};
use crate::token::Tok;
use vstd::prelude::*;

verus! {

/// Whatever holds of each thing that a step finds holds of all things in a series of such steps.
pub proof fn all_of_a_series<A>(
    p: spec_fn(Cursor) -> Step<Option<A>>,
    t: Toks,
    sep: Option<Tok>,
    before: Seq<A>,
    c: Cursor,
    holds: spec_fn(A) -> bool,
)
    requires
        forall|d: Cursor| (#[trigger] p(d)).res matches Ok(Some(value)) ==> holds(value),
        forall|i: int| 0 <= i < before.len() ==> holds(#[trigger] before[i]),
    ensures
        series(p, t, sep, before, c).res matches Ok(all) ==> forall|i: int|
            0 <= i < all.len() ==> holds(#[trigger] all[i]),
    decreases ahead(t, c),
{
    let item = p(c);
    if let Ok(Some(value)) = item.res {
        let longer = before.push(value);
        assert(forall|i: int| 0 <= i < longer.len() ==> holds(#[trigger] longer[i]));
        if c.at < t.len() {
            match sep {
                None => {
                    all_of_a_series(p, t, sep, longer, after(t, c, item.to), holds);
                },
                Some(_) => {
                    all_of_a_series(p, t, sep, longer, after(t, c, next(t, item.to)), holds);
                },
            }
        }
    }
}

/// Whether neither functions nor type variables occur in a type.
pub open spec fn is_const_type(typ: TypeView) -> bool
    decreases typ,
{
    match typ {
        TypeView::Constructor { args, .. } => forall|i: int|
            0 <= i < args.len() ==> is_const_type(#[trigger] args[i]),
        TypeView::Tuple { elems, .. } => forall|i: int|
            0 <= i < elems.len() ==> is_const_type(#[trigger] elems[i]),
        TypeView::Hole { .. } => true,
        TypeView::Fn { .. } => false,
        TypeView::Var { .. } => false,
    }
}

/// In the type of a constant neither functions nor type variables occur, however deep.
pub proof fn types_of_constants(t: Toks, c: Cursor)
    ensures
        ty(t, c, true).res matches Ok(Some(typ)) ==> is_const_type(typ),
    decreases ahead(t, c), 0nat,
{
    let to = next(t, c);
    match peek(t, c) {
        Some((_, Tok::Tuple, _)) => {
            lemma_const_types(t, expect_one(t, to, Tok::Lpar).to);
        },
        Some((start, Tok::UpName { name }, end)) => {
            lemma_const_type_name(t, to, start, None, name@, end);
        },
        Some((start, Tok::Name { name }, _)) => {
            let upname = expect_upname(t, next(t, to));
            if let Ok((_, upname_text, end)) = upname.res {
                lemma_const_type_name(t, upname.to, start, Some(name@), upname_text, end);
            }
        },
        _ => {},
    }
}

proof fn lemma_const_type_name(
    t: Toks,
    c: Cursor,
    start: usize,
    module: Option<Text>,
    name: Text,
    end: usize,
)
    ensures
        type_name_finish(t, c, true, start, module, name, end).res matches Ok(Some(typ))
            ==> is_const_type(typ),
    decreases ahead(t, c), 3nat,
{
    if one(t, c, Tok::Lpar) is Some {
        lemma_const_types(t, next(t, c));
    }
}

proof fn lemma_const_types(t: Toks, c: Cursor)
    ensures
        types(t, c, true).res matches Ok(all) ==> forall|i: int|
            0 <= i < all.len() ==> is_const_type(#[trigger] all[i]),
    decreases ahead(t, c), 2nat,
{
    let p = ty_from(t, c, true);
    let holds = |typ: TypeView| is_const_type(typ);
    assert forall|d: Cursor| (#[trigger] p(d)).res matches Ok(Some(value)) ==> holds(value) by {
        types_of_constants(t, from(t, c, d));
    }
    all_of_a_series(p, t, Some(Tok::Comma), Seq::empty(), c, holds);
    if let Ok(all) = types(t, c, true).res {
        assert forall|i: int| 0 <= i < all.len() implies is_const_type(#[trigger] all[i]) by {
            assert(holds(all[i]));
        }
    }
}

/// The annotation of a module constant has neither functions nor type variables in it.
pub proof fn annotations_of_constants(t: Toks, c: Cursor)
    ensures
        statement(t, c).res matches Ok(
            Some(StatementView::ModuleConstant { annotation: Some(typ), .. }),
        ) ==> is_const_type(typ),
{
    let behind_first = next(t, c);
    lemma_annotation(t, behind_first, false);
    lemma_annotation(t, next(t, behind_first), true);
    reveal(statement);
    lemma_kinds(t, c);
}

proof fn lemma_annotation(t: Toks, c: Cursor, public: bool)
    ensures
        module_const(t, c, public).res matches Ok(
            Some(StatementView::ModuleConstant { annotation: Some(typ), .. }),
        ) ==> is_const_type(typ),
{
    reveal(module_const);
    let named = expect_name(t, c);
    types_of_constants(t, next(t, named.to));
}

/// Whether a definition is public. An import is not.
pub open spec fn is_public(definition: StatementView) -> bool {
    match definition {
        StatementView::Fn { public, .. } => public,
        StatementView::TypeAlias { public, .. } => public,
        StatementView::CustomType { public, .. } => public,
        StatementView::ExternalFn { public, .. } => public,
        StatementView::ExternalType { public, .. } => public,
        StatementView::ModuleConstant { public, .. } => public,
        StatementView::Import { .. } => false,
    }
}

proof fn lemma_kinds(t: Toks, c: Cursor)
    ensures
        forall|d: Cursor| (#[trigger] import(t, d)).res matches Ok(found) ==> {
            found matches Some(StatementView::Import { .. })
        },
        forall|d: Cursor, public: bool| (#[trigger] module_const(t, d, public)).res matches Ok(found)
            ==> found matches Some(StatementView::ModuleConstant { public: p, .. }) && p == public,
        forall|d: Cursor, start: usize, public: bool|
            (#[trigger] external_type(t, d, start, public)).res matches Ok(found) ==> {
                found matches Some(StatementView::ExternalType { public: p, .. }) && p == public
            },
        forall|d: Cursor, start: usize, public: bool|
            (#[trigger] external_fn(t, d, start, public)).res matches Ok(found) ==> {
                found matches Some(StatementView::ExternalFn { public: p, .. }) && p == public
            },
        forall|d: Cursor, start: usize, public: bool, anon: bool|
            (#[trigger] function(t, d, start, public, anon)).res matches Ok(found) ==> {
                found matches Some(StatementView::Fn { public: p, .. }) && p == public
            },
        forall|d: Cursor, start: usize, public: bool, opaque: bool|
            (#[trigger] custom_type(t, d, start, public, opaque)).res matches Ok(found) ==> {
                &&& found matches Some(definition)
                &&& is_public(definition) == public
                &&& definition is CustomType || (definition is TypeAlias && !opaque)
                &&& definition matches StatementView::CustomType { constructors, opaque: o, .. }
                    ==> constructors.len() > 0 && o == opaque
            },
{
    reveal(import);
    reveal(module_const);
    reveal(external_type);
    reveal(external_fn);
    reveal(external_fn_body);
    reveal(custom_type);
}

/// A definition is public just if it starts with `pub`.
pub proof fn public_definitions_start_with_pub(t: Toks, c: Cursor)
    ensures
        statement(t, c).res matches Ok(Some(definition)) ==> (is_public(definition) <==> (peek(t, c)
            matches Some((_, Tok::Pub, _)))),
{
    reveal(statement);
    lemma_kinds(t, c);
}

/// A custom type has at least one constructor, and it is opaque just if `pub opaque` stands before
/// it. A type alias is never opaque.
pub proof fn custom_types_have_constructors(t: Toks, c: Cursor)
    ensures
        statement(t, c).res matches Ok(Some(StatementView::CustomType { constructors, opaque, .. }))
            ==> {
            &&& constructors.len() > 0
            &&& opaque <==> (peek_second(t, c) matches Some((_, Tok::Opaque, _))) && (peek(t, c)
                matches Some((_, Tok::Pub, _)))
        },
        statement(t, c).res matches Ok(Some(StatementView::TypeAlias { .. })) ==> !(peek_second(
            t,
            c,
        ) matches Some((_, Tok::Opaque, _))) || !(peek(t, c) matches Some((_, Tok::Pub, _))),
{
    reveal(statement);
    lemma_kinds(t, c);
}

/// An import names at least one part of a module's path.
pub proof fn imports_name_a_module(t: Toks, c: Cursor)
    ensures
        statement(t, c).res matches Ok(Some(StatementView::Import { module, .. })) ==> module.len()
            > 0,
{
    reveal(import);
    reveal(statement);
    lemma_kinds(t, c);
    lemma_import_path(t, next(t, c), 0, Seq::empty());
}

proof fn lemma_import_path(t: Toks, c: Cursor, start: usize, before: Seq<Text>)
    ensures
        import_path(t, c, start, before).res matches Ok((_, module, _)) ==> module.len()
            > before.len(),
    decreases ahead(t, c),
{
    let named = expect_name(t, c);
    if let Ok((name_start, name, _)) = named.res {
        let path_start = if before.len() == 0 {
            name_start
        } else {
            start
        };
        if one(t, named.to, Tok::Slash) is Some {
            lemma_import_path(t, next(t, named.to), path_start, before.push(name));
        }
    }
}

/// A case expression has at least one subject and at least one clause, and each clause has at least
/// one pattern.
pub proof fn cases_are_not_empty(t: Toks, c: Cursor, start: usize, case_end: usize)
    ensures
        case_expr(t, c, start, case_end).res matches Ok(expr) ==> {
            &&& expr matches ExprView::Case { subjects, clauses, .. }
            &&& subjects.len() > 0
            &&& clauses.len() > 0
            &&& forall|i: int| 0 <= i < clauses.len() ==> (#[trigger] clauses[i]).pattern.len() > 0
        },
{
    let holds = |clause: ClauseView| clause.pattern.len() > 0;
    let inner = from(t, c, expect_one(t, expressions(t, c).to, Tok::Lbrace).to);
    let p = case_clause_from(t, inner);
    assert forall|d: Cursor| (#[trigger] p(d)).res matches Ok(Some(value)) ==> holds(value) by {
        assert(case_clause(t, from(t, inner, d)).res matches Ok(Some(value)) ==> holds(value));
    }
    all_of_a_series(p, t, None, Seq::empty(), inner, holds);
    if let Ok(clauses) = series(p, t, None, Seq::empty(), inner).res {
        assert forall|i: int| 0 <= i < clauses.len() implies (#[trigger] clauses[i]).pattern.len()
            > 0 by {
            assert(holds(clauses[i]));
        }
    }
}

/// A binding that has a value but is followed by nothing is an error.
pub proof fn a_binding_is_not_the_end(
    t: Toks,
    c: Cursor,
    head: (usize, BindingKind, PatternView, Option<TypeView>),
    equal: (usize, usize),
)
    ensures
        expression(t, c).res matches Ok(Some(value)) ==> expression_seq(
            t,
            from(t, c, expression(t, c).to),
        ).res matches Ok(None) ==> bound_value(t, c, head, equal).res == Err::<
            (ExprView, usize),
            ErrorView,
        >(
            ErrorView {
                fault: Fault::Plain(ParseErrorType::ExprTailBinding),
                location: span(head.0, value.location().end),
            },
        ),
        bound_value(t, c, head, equal).res matches Ok((expr, _)) ==> expr is Let,
{
}

/// A call keeps all its arguments in their order, and it is made just if at most one of them is a
/// hole; with one hole it is a function of one argument.
pub proof fn calls_have_at_most_one_hole(
    fun: ExprView,
    args: Seq<ParserArgView>,
    start: usize,
    end: usize,
)
    ensures
        call(fun, args, start, end) is Ok <==> holes(args) <= 1,
        call(fun, args, start, end) matches Ok(expr) ==> {
            let inner = match expr {
                ExprView::Fn { body, .. } => *body,
                _ => expr,
            };
            &&& inner matches ExprView::Call { args: call_args, .. }
            &&& call_args.len() == args.len()
            &&& forall|i: int| 0 <= i < args.len() ==> #[trigger] call_args[i] == filled(args[i])
            &&& expr matches ExprView::Fn { args: fn_args, .. } ==> fn_args.len() == 1
            &&& expr is Fn <==> holes(args) == 1
        },
{
}

/// Underscores have no influence on the value of a number.
pub proof fn underscores_are_of_no_account(text: Text)
    ensures
        decimal(without_underscores(text)) == decimal(text),
{
    lemma_without_underscores_twice(text);
}

proof fn lemma_without_underscores_twice(text: Text)
    ensures
        without_underscores(without_underscores(text)) == without_underscores(text),
    decreases text.len(),
{
    reveal(Seq::filter);
    if text.len() > 0 {
        let short = without_underscores(text.drop_last());
        lemma_without_underscores_twice(text.drop_last());
        if text.last() != '_' {
            assert(short.push(text.last()).drop_last() =~= short);
        }
    }
}

} // verus!
