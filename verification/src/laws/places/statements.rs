//! How far looking for definitions gets, and with it parsing a whole input.

use crate::grammar::basics::{
    expect_name, expect_one, expect_upname, maybe_name, maybe_upname, nothing, one, series, span,
    Step,
};
use crate::grammar::exprs::expression_seq;
use crate::grammar::modules::{checked, definitions, expression_of, module_of, read_all, start};
use crate::grammar::statements::{
    constructor, constructor_in, custom_type, external_fn, external_fn_body, external_fn_param,
    external_fn_param_in, external_type, import, import_path, maybe_alias, module_const, statement,
    statement_in, type_constructor_arg, type_constructor_arg_in, type_constructor_args, type_head,
    type_param, type_param_in, unqualified_imports, unqualified_in_braces,
};
use crate::grammar::types::type_annotation;
use crate::laws::places::{a_series_stands_in_a_row, advances, finds, moves, series_moves, stand_at};
use crate::laws::places::constants::const_value_is_found;
use crate::laws::places::exprs::{expression_seq_is_found, function_is_found};
use crate::laws::places::types::{type_annotation_is_found, type_is_found};
use crate::model::{ExternalFnArgView, Text, UnqualifiedImportView};
use crate::stream::{
    ahead, end_of, first_lex_error, lemma_first_lex_error, lemma_first_lex_error_all, next, peek,
    peek_second, stream, Cursor, LexResult, Toks,
};
use crate::token::{is_layout, Tok};
use vstd::prelude::*;

verus! {

/// Looking for a definition gets ahead if it finds one, stays where it is if not, and never goes
/// back nor beyond the last token.
pub proof fn statement_is_found(t: Toks, c: Cursor)
    requires
        c.at <= t.len(),
    ensures
        finds(t, c, statement(t, c)),
{
    reveal(statement);
    let behind_first = next(t, c);
    let behind_second = next(t, behind_first);
    match (peek(t, c), peek_second(t, c)) {
        (Some((_, Tok::Import, _)), _) => {
            import_moves(t, behind_first);
        },
        (Some((_, Tok::Const, _)), _) => {
            module_const_moves(t, behind_first, false);
        },
        (Some((_, Tok::Pub, _)), Some((_, Tok::Const, _))) => {
            module_const_moves(t, behind_second, true);
        },
        (Some((start, Tok::External, _)), Some((_, Tok::Type, _))) => {
            external_type_moves(t, behind_second, start, false);
        },
        (Some((start, Tok::External, _)), Some((_, Tok::Fn, _))) => {
            external_fn_moves(t, behind_second, start, false);
        },
        (Some((start, Tok::Pub, _)), Some((_, Tok::External, _))) => {
            external_type_moves(t, next(t, behind_second), start, true);
            external_fn_moves(t, next(t, behind_second), start, true);
        },
        (Some((start, Tok::Fn, _)), _) => {
            function_is_found(t, behind_first, start, false, false);
        },
        (Some((start, Tok::Pub, _)), Some((_, Tok::Fn, _))) => {
            function_is_found(t, behind_second, start, true, false);
        },
        (Some((start, Tok::Type, _)), _) => {
            custom_type_moves(t, behind_first, start, false, false);
        },
        (Some((start, Tok::Pub, _)), Some((_, Tok::Opaque, _))) => {
            custom_type_moves(t, expect_one(t, behind_second, Tok::Type).to, start, true, true);
        },
        (Some((start, Tok::Pub, _)), Some((_, Tok::Type, _))) => {
            custom_type_moves(t, behind_second, start, true, false);
        },
        _ => {},
    }
}

proof fn external_fn_moves(t: Toks, c: Cursor, start: usize, public: bool)
    requires
        c.at <= t.len(),
    ensures
        moves(t, c, external_fn(t, c, start, public)),
        !nothing(external_fn(t, c, start, public)),
{
    reveal(external_fn);
    let p = external_fn_param_in(t);
    assert forall|d: Cursor| c.at <= d.at <= t.len() implies advances(t, d, #[trigger] p(d)) by {
        external_fn_param_is_found(t, d);
    }
    let named = expect_name(t, c);
    let lpar = expect_one(t, named.to, Tok::Lpar);
    series_moves(p, t, Some(Tok::Comma), Seq::empty(), lpar.to);
    let params = series(p, t, Some(Tok::Comma), Seq::empty(), lpar.to);
    let rpar = expect_one(t, params.to, Tok::Rpar);
    if let Ok((_, name, _)) = named.res {
        if let Ok(args) = params.res {
            external_fn_body_moves(t, rpar.to, start, public, name, args);
        }
    }
}

proof fn external_fn_body_moves(
    t: Toks,
    c: Cursor,
    start: usize,
    public: bool,
    name: Text,
    args: Seq<ExternalFnArgView>,
)
    requires
        c.at <= t.len(),
    ensures
        moves(t, c, external_fn_body(t, c, start, public, name, args)),
        !nothing(external_fn_body(t, c, start, public, name, args)),
{
    reveal(external_fn_body);
    type_is_found(t, expect_one(t, c, Tok::RArrow).to, false);
}

/// Looking for a parameter of an external function gets ahead if it finds one, stays where it is if
/// not, and never goes back nor beyond the last token.
pub proof fn external_fn_param_is_found(t: Toks, c: Cursor)
    requires
        c.at <= t.len(),
    ensures
        finds(t, c, external_fn_param(t, c)),
{
    match (peek(t, c), peek_second(t, c)) {
        (Some((_, Tok::Name { .. }, _)), Some((_, Tok::Colon, _))) => {
            type_is_found(t, next(t, next(t, c)), false);
        },
        _ => {
            type_is_found(t, c, false);
        },
    }
}

proof fn external_type_moves(t: Toks, c: Cursor, start: usize, public: bool)
    requires
        c.at <= t.len(),
    ensures
        moves(t, c, external_type(t, c, start, public)),
        !nothing(external_type(t, c, start, public)),
{
    reveal(external_type);
    type_head_moves(t, c);
}

proof fn type_head_moves(t: Toks, c: Cursor)
    requires
        c.at <= t.len(),
    ensures
        moves(t, c, type_head(t, c)),
{
    let p = type_param_in(t);
    let inner = next(t, expect_upname(t, c).to);
    assert forall|d: Cursor| inner.at <= d.at <= t.len() implies advances(
        t,
        d,
        #[trigger] p(d),
    ) by {
        assert(finds(t, d, type_param(t, d)));
    }
    series_moves(p, t, Some(Tok::Comma), Seq::empty(), inner);
}

proof fn custom_type_moves(t: Toks, c: Cursor, start: usize, public: bool, opaque: bool)
    requires
        c.at <= t.len(),
    ensures
        moves(t, c, custom_type(t, c, start, public, opaque)),
        !nothing(custom_type(t, c, start, public, opaque)),
{
    reveal(custom_type);
    type_head_moves(t, c);
    let inner = next(t, type_head(t, c).to);
    let p = constructor_in(t);
    assert forall|d: Cursor| inner.at <= d.at <= t.len() implies advances(
        t,
        d,
        #[trigger] p(d),
    ) by {
        constructor_is_found(t, d);
    }
    series_moves(p, t, None, Seq::empty(), inner);
    type_is_found(t, inner, false);
}

/// Looking for a constructor of a custom type gets ahead if it finds one, stays where it is if not,
/// and never goes back nor beyond the last token.
pub proof fn constructor_is_found(t: Toks, c: Cursor)
    requires
        c.at <= t.len(),
    ensures
        finds(t, c, constructor(t, c)),
{
    type_constructor_args_move(t, next(t, c));
}

proof fn type_constructor_args_move(t: Toks, c: Cursor)
    requires
        c.at <= t.len(),
    ensures
        moves(t, c, type_constructor_args(t, c)),
{
    let inner = next(t, c);
    let p = type_constructor_arg_in(t);
    assert forall|d: Cursor| inner.at <= d.at <= t.len() implies advances(
        t,
        d,
        #[trigger] p(d),
    ) by {
        type_constructor_arg_is_found(t, d);
    }
    series_moves(p, t, Some(Tok::Comma), Seq::empty(), inner);
}

/// Looking for an argument of a constructor of a custom type gets ahead if it finds one, stays
/// where it is if not, and never goes back nor beyond the last token.
pub proof fn type_constructor_arg_is_found(t: Toks, c: Cursor)
    requires
        c.at <= t.len(),
    ensures
        finds(t, c, type_constructor_arg(t, c)),
{
    match (peek(t, c), peek_second(t, c)) {
        (Some((_, Tok::Name { .. }, _)), Some((_, Tok::Colon, _))) => {
            type_is_found(t, next(t, next(t, c)), false);
        },
        _ => {
            type_is_found(t, c, false);
        },
    }
}

proof fn import_moves(t: Toks, c: Cursor)
    requires
        c.at <= t.len(),
    ensures
        moves(t, c, import(t, c)),
        !nothing(import(t, c)),
{
    reveal(import);
    import_path_moves(t, c, 0, Seq::empty());
    let path = import_path(t, c, 0, Seq::empty());
    let inner = next(t, path.to);
    let lbrace = expect_one(t, inner, Tok::Lbrace);
    unqualified_imports_move(t, lbrace.to, Seq::empty());
    assert(moves(t, inner, unqualified_in_braces(t, inner)));
}

proof fn import_path_moves(t: Toks, c: Cursor, start: usize, before: Seq<Text>)
    requires
        c.at <= t.len(),
    ensures
        moves(t, c, import_path(t, c, start, before)),
    decreases ahead(t, c),
{
    let named = expect_name(t, c);
    if let Ok((name_start, name, _)) = named.res {
        let path_start = if before.len() == 0 {
            name_start
        } else {
            start
        };
        if one(t, named.to, Tok::Slash) is Some {
            import_path_moves(t, next(t, named.to), path_start, before.push(name));
        }
    }
}

proof fn unqualified_imports_move(t: Toks, c: Cursor, before: Seq<UnqualifiedImportView>)
    requires
        c.at <= t.len(),
    ensures
        moves(t, c, unqualified_imports(t, c, before)),
    decreases ahead(t, c),
{
    let named = match maybe_name(t, c) {
        Some(name) => Some(name),
        None => maybe_upname(t, c),
    };
    if let Some((start, name, end)) = named {
        let alias = maybe_alias(t, next(t, c));
        if let Ok(as_name) = alias.res {
            let location = span(start, end);
            unqualified_imports_move(
                t,
                next(t, alias.to),
                before.push(UnqualifiedImportView { location, name, as_name }),
            );
        }
    }
}

proof fn module_const_moves(t: Toks, c: Cursor, public: bool)
    requires
        c.at <= t.len(),
    ensures
        moves(t, c, module_const(t, c, public)),
        !nothing(module_const(t, c, public)),
{
    reveal(module_const);
    let named = expect_name(t, c);
    type_annotation_is_found(t, named.to, Tok::Colon, true);
    let typ = type_annotation(t, named.to, Tok::Colon, true);
    const_value_is_found(t, expect_one(t, typ.to, Tok::Equal).to);
}

proof fn lemma_gap_is_an_error(input: Seq<LexResult>, i: int, count: nat)
    requires
        0 <= i < stream(input).len(),
        i < count,
        stream(input)[i] is None,
    ensures
        first_lex_error(input, count) is Some,
    decreases input.len(),
{
    let tail = input.drop_first();
    match input[0] {
        Ok(spanned) => {
            if is_layout(spanned.1) {
                lemma_gap_is_an_error(tail, i, count);
            } else {
                assert(stream(input)[i] == stream(tail)[i - 1]);
                lemma_gap_is_an_error(tail, i - 1, (count - 1) as nat);
            }
        },
        Err(_) => {},
    }
}

proof fn lemma_read_all<A>(input: Seq<LexResult>, step: Step<A>)
    requires
        moves(stream(input), start(), step),
        checked(input, step) is Ok,
    ensures
        read_all(input, step),
{
    let t = stream(input);
    let count = step.to.at + 2;
    if step.to.at < t.len() {
        lemma_gap_is_an_error(input, step.to.at as int, count);
    }
    lemma_first_lex_error_all(input, count);
    lemma_first_lex_error(input, Seq::empty());
    assert(input + Seq::empty() =~= input);
}

/// An input for which parsing a module succeeds has no lexical error in it, and is read up to its
/// end.
pub proof fn a_module_is_the_whole_input(input: Seq<LexResult>)
    ensures
        module_of(input) is Ok ==> read_all(input, definitions(stream(input), start())),
{
    let t = stream(input);
    let p = statement_in(t);
    assert forall|d: Cursor| 0 <= d.at <= t.len() implies advances(t, d, #[trigger] p(d)) by {
        statement_is_found(t, d);
    }
    series_moves(p, t, None, Seq::empty(), start());
    if module_of(input) is Ok {
        lemma_read_all(input, definitions(t, start()));
    }
}

/// An input for which parsing a sequence of expressions succeeds has no lexical error in it, and is
/// read up to its end.
pub proof fn a_sequence_is_the_whole_input(input: Seq<LexResult>)
    ensures
        expression_of(input) is Ok ==> read_all(input, expression_seq(stream(input), start())),
{
    expression_seq_is_found(stream(input), start());
    if expression_of(input) is Ok {
        lemma_read_all(input, expression_seq(stream(input), start()));
    }
}

/// The definitions of a module stand one after another from the first token of its input up to the
/// last.
pub proof fn definitions_cover_the_input(input: Seq<LexResult>)
    ensures
        module_of(input) matches Ok(module) ==> exists|places: Seq<Cursor>| #[trigger]
            stand_at(statement_in(stream(input)), places, module.statements) && places[0] == start()
                && places.last() == end_of(stream(input)),
{
    let t = stream(input);
    let p = statement_in(t);
    assert forall|d: Cursor| 0 <= d.at <= t.len() implies finds(t, d, #[trigger] p(d)) by {
        statement_is_found(t, d);
    }
    a_series_stands_in_a_row(p, t, start());
    a_module_is_the_whole_input(input);
    if let Ok(module) = module_of(input) {
        let step = series(p, t, None, Seq::empty(), start());
        let places = choose|places: Seq<Cursor>| #[trigger]
            stand_at(p, places, module.statements) && places[0] == start() && places.last()
                == step.to;
        assert(stand_at(p, places, module.statements));
    }
}

} // verus!
