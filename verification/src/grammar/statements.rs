//! Definitions at the top level of a module.

use crate::error::ParseErrorType;
use crate::grammar::basics::{
    error_at, expect_name, expect_one, expect_string, expect_upname, failed, found, maybe_name,
    maybe_upname, one, series, span, unexpected, Step,
};
use crate::grammar::constants::const_value;
use crate::grammar::exprs::function;
use crate::grammar::types::{ty, type_annotation};
use crate::model::{
    ExternalFnArgView, RecordConstructorArgView, RecordConstructorView, StatementView, Text,
    UnqualifiedImportView,
};
use crate::stream::{ahead, next, peek, peek_second, Cursor, Toks};
use crate::token::Tok;
use vstd::prelude::*;

verus! {

/// A definition.
#[verifier::opaque]
pub open spec fn statement(t: Toks, c: Cursor) -> Step<Option<StatementView>> {
    let behind_first = next(t, c);
    let behind_second = next(t, behind_first);
    match (peek(t, c), peek_second(t, c)) {
        (Some((_, Tok::Import, _)), _) => import(t, behind_first),
        (Some((_, Tok::Const, _)), _) => module_const(t, behind_first, false),
        (Some((_, Tok::Pub, _)), Some((_, Tok::Const, _))) => module_const(t, behind_second, true),
        (Some((start, Tok::External, _)), Some((_, Tok::Type, _))) => external_type(
            t,
            behind_second,
            start,
            false,
        ),
        (Some((start, Tok::External, _)), Some((_, Tok::Fn, _))) => external_fn(
            t,
            behind_second,
            start,
            false,
        ),
        (Some((start, Tok::Pub, _)), Some((_, Tok::External, _))) => {
            let behind_third = next(t, behind_second);
            match peek(t, behind_second) {
                Some((_, Tok::Type, _)) => external_type(t, behind_third, start, true),
                Some((_, Tok::Fn, _)) => external_fn(t, behind_third, start, true),
                _ => unexpected(t, behind_third, seq!["A type or function definition"@]),
            }
        },
        (Some((start, Tok::Fn, _)), _) => function(t, behind_first, start, false, false),
        (Some((start, Tok::Pub, _)), Some((_, Tok::Fn, _))) => function(
            t,
            behind_second,
            start,
            true,
            false,
        ),
        (Some((start, Tok::Type, _)), _) => custom_type(t, behind_first, start, false, false),
        (Some((start, Tok::Pub, _)), Some((_, Tok::Opaque, _))) => {
            let keyword = expect_one(t, behind_second, Tok::Type);
            match keyword.res {
                Err(error) => failed(error, keyword.to),
                Ok(_) => custom_type(t, keyword.to, start, true, true),
            }
        },
        (Some((start, Tok::Pub, _)), Some((_, Tok::Type, _))) => custom_type(
            t,
            behind_second,
            start,
            true,
            false,
        ),
        _ => found(None, c),
    }
}

/// A definition, at a place of a stream.
pub open spec fn statement_in(t: Toks) -> spec_fn(Cursor) -> Step<Option<StatementView>> {
    |c: Cursor| statement(t, c)
}

/// The rest of an external function, behind its `fn`.
#[verifier::opaque]
pub open spec fn external_fn(t: Toks, c: Cursor, start: usize, public: bool) -> Step<
    Option<StatementView>,
> {
    let named = expect_name(t, c);
    match named.res {
        Err(error) => failed(error, named.to),
        Ok((_, name, _)) => {
            let lpar = expect_one(t, named.to, Tok::Lpar);
            match lpar.res {
                Err(error) => failed(error, lpar.to),
                Ok(_) => {
                    let params = series(
                        external_fn_param_in(t),
                        t,
                        Some(Tok::Comma),
                        Seq::empty(),
                        lpar.to,
                    );
                    match params.res {
                        Err(error) => failed(error, params.to),
                        Ok(args) => {
                            let rpar = expect_one(t, params.to, Tok::Rpar);
                            match rpar.res {
                                Err(error) => failed(error, rpar.to),
                                Ok(_) => external_fn_body(t, rpar.to, start, public, name, args),
                            }
                        },
                    }
                },
            }
        },
    }
}

/// The type that an external function returns and the function that it stands for, behind its
/// parameters.
#[verifier::opaque]
pub open spec fn external_fn_body(
    t: Toks,
    c: Cursor,
    start: usize,
    public: bool,
    name: Text,
    args: Seq<ExternalFnArgView>,
) -> Step<Option<StatementView>> {
    let arrow = expect_one(t, c, Tok::RArrow);
    match arrow.res {
        Err(error) => failed(error, arrow.to),
        Ok((arrow_start, arrow_end)) => {
            let typ = ty(t, arrow.to, false);
            match typ.res {
                Err(error) => failed(error, typ.to),
                Ok(annotation) => {
                    let equal = expect_one(t, typ.to, Tok::Equal);
                    match equal.res {
                        Err(error) => failed(error, equal.to),
                        Ok(_) => {
                            let first = expect_string(t, equal.to);
                            match first.res {
                                Err(error) => failed(error, first.to),
                                Ok((_, module, _)) => {
                                    let second = expect_string(t, first.to);
                                    match second.res {
                                        Err(error) => failed(error, second.to),
                                        Ok((_, fun, end)) => match annotation {
                                            Some(retrn) => found(
                                                Some(
                                                    StatementView::ExternalFn {
                                                        location: span(start, end),
                                                        public,
                                                        args,
                                                        name,
                                                        retrn,
                                                        module,
                                                        fun,
                                                        doc: None,
                                                    },
                                                ),
                                                second.to,
                                            ),
                                            None => error_at(
                                                ParseErrorType::ExpectedType,
                                                span(arrow_start, arrow_end),
                                                second.to,
                                            ),
                                        },
                                    }
                                },
                            }
                        },
                    }
                },
            }
        },
    }
}

/// A parameter of an external function: a type, which may have a label.
pub open spec fn external_fn_param(t: Toks, c: Cursor) -> Step<Option<ExternalFnArgView>> {
    match (peek(t, c), peek_second(t, c)) {
        (Some((start, Tok::Name { name }, _)), Some((_, Tok::Colon, colon_end))) => {
            let typ = ty(t, next(t, next(t, c)), false);
            match typ.res {
                Err(error) => failed(error, typ.to),
                Ok(None) => error_at(
                    ParseErrorType::ExpectedType,
                    span(colon_end, colon_end),
                    typ.to,
                ),
                Ok(Some(annotation)) => found(
                    Some(
                        ExternalFnArgView {
                            location: span(start, annotation.location().end),
                            label: Some(name@),
                            annotation,
                        },
                    ),
                    typ.to,
                ),
            }
        },
        _ => {
            let typ = ty(t, c, false);
            match typ.res {
                Err(error) => failed(error, typ.to),
                Ok(None) => found(None, typ.to),
                Ok(Some(annotation)) => found(
                    Some(
                        ExternalFnArgView {
                            location: annotation.location(),
                            label: None,
                            annotation,
                        },
                    ),
                    typ.to,
                ),
            }
        },
    }
}

/// A parameter of an external function, at a place of a stream.
pub open spec fn external_fn_param_in(t: Toks) -> spec_fn(Cursor) -> Step<
    Option<ExternalFnArgView>,
> {
    |c: Cursor| external_fn_param(t, c)
}

/// The rest of an external type, behind its `type`.
#[verifier::opaque]
pub open spec fn external_type(t: Toks, c: Cursor, start: usize, public: bool) -> Step<
    Option<StatementView>,
> {
    let head = type_head(t, c);
    match head.res {
        Err(error) => failed(error, head.to),
        Ok((_, name, args, end)) => found(
            Some(
                StatementView::ExternalType {
                    location: span(start, end),
                    public,
                    name,
                    args,
                    doc: None,
                },
            ),
            head.to,
        ),
    }
}

/// The name of a type with the names of its parameters, and the offsets between which they stand.
pub open spec fn type_head(t: Toks, c: Cursor) -> Step<(usize, Text, Seq<Text>, usize)> {
    let upname = expect_upname(t, c);
    match upname.res {
        Err(error) => failed(error, upname.to),
        Ok((start, name, name_end)) => if one(t, upname.to, Tok::Lpar) is Some {
            let params = series(
                type_param_in(t),
                t,
                Some(Tok::Comma),
                Seq::empty(),
                next(t, upname.to),
            );
            match params.res {
                Err(error) => failed(error, params.to),
                Ok(names) => {
                    let rpar = expect_one(t, params.to, Tok::Rpar);
                    match rpar.res {
                        Err(error) => failed(error, rpar.to),
                        Ok((_, end)) => found(
                            (start, name, names.map_values(|n: (usize, Text, usize)| n.1), end),
                            rpar.to,
                        ),
                    }
                },
            }
        } else {
            found((start, name, Seq::empty(), name_end), upname.to)
        },
    }
}

/// The name of a parameter of a type.
pub open spec fn type_param(t: Toks, c: Cursor) -> Step<Option<(usize, Text, usize)>> {
    match maybe_name(t, c) {
        Some(name) => found(Some(name), next(t, c)),
        None => found(None, c),
    }
}

/// The name of a parameter of a type, at a place of a stream.
pub open spec fn type_param_in(t: Toks) -> spec_fn(Cursor) -> Step<Option<(usize, Text, usize)>> {
    |c: Cursor| type_param(t, c)
}

/// The rest of a custom type or of a type alias, behind its `type`.
#[verifier::opaque]
pub open spec fn custom_type(
    t: Toks,
    c: Cursor,
    start: usize,
    public: bool,
    opaque: bool,
) -> Step<Option<StatementView>> {
    let head = type_head(t, c);
    match head.res {
        Err(error) => failed(error, head.to),
        Ok((_, name, parameters, end)) => if one(t, head.to, Tok::Lbrace) is Some {
            let variants = series(constructor_in(t), t, None, Seq::empty(), next(t, head.to));
            match variants.res {
                Err(error) => failed(error, variants.to),
                Ok(constructors) => {
                    let rbrace = expect_one(t, variants.to, Tok::Rbrace);
                    match rbrace.res {
                        Err(error) => failed(error, rbrace.to),
                        Ok(_) => if constructors.len() == 0 {
                            error_at(ParseErrorType::NoConstructors, span(start, end), rbrace.to)
                        } else {
                            found(
                                Some(
                                    StatementView::CustomType {
                                        location: span(start, end),
                                        name,
                                        parameters,
                                        public,
                                        constructors,
                                        doc: None,
                                        opaque,
                                        typed_parameters: Seq::empty(),
                                    },
                                ),
                                rbrace.to,
                            )
                        },
                    }
                },
            }
        } else {
            match one(t, head.to, Tok::Equal) {
                // Neither constructors nor a type
                None => error_at(ParseErrorType::NoConstructors, span(start, end), head.to),
                Some((equal_start, equal_end)) => if opaque {
                    error_at(
                        ParseErrorType::OpaqueTypeAlias,
                        span(start, end),
                        next(t, head.to),
                    )
                } else {
                    let typ = ty(t, next(t, head.to), false);
                    match typ.res {
                        Err(error) => failed(error, typ.to),
                        Ok(None) => error_at(
                            ParseErrorType::ExpectedType,
                            span(equal_start, equal_end),
                            typ.to,
                        ),
                        Ok(Some(resolved_type)) => found(
                            Some(
                                StatementView::TypeAlias {
                                    location: span(start, resolved_type.location().end),
                                    alias: name,
                                    args: parameters,
                                    resolved_type,
                                    public,
                                    doc: None,
                                },
                            ),
                            typ.to,
                        ),
                    }
                },
            }
        },
    }
}

/// A constructor of a custom type.
pub open spec fn constructor(t: Toks, c: Cursor) -> Step<Option<RecordConstructorView>> {
    match maybe_upname(t, c) {
        None => found(None, c),
        Some((start, name, name_end)) => {
            let fields = type_constructor_args(t, next(t, c));
            match fields.res {
                Err(error) => failed(error, fields.to),
                Ok((args, args_end)) => found(
                    Some(
                        RecordConstructorView {
                            location: span(
                                start,
                                if args_end >= name_end {
                                    args_end
                                } else {
                                    name_end
                                },
                            ),
                            name,
                            args,
                            documentation: None,
                        },
                    ),
                    fields.to,
                ),
            }
        },
    }
}

/// A constructor of a custom type, at a place of a stream.
pub open spec fn constructor_in(t: Toks) -> spec_fn(Cursor) -> Step<
    Option<RecordConstructorView>,
> {
    |c: Cursor| constructor(t, c)
}

/// The arguments of a constructor and where they end, at offset 0 if there are none.
pub open spec fn type_constructor_args(t: Toks, c: Cursor) -> Step<
    (Seq<RecordConstructorArgView>, usize),
> {
    if one(t, c, Tok::Lpar) is Some {
        let fields = series(
            type_constructor_arg_in(t),
            t,
            Some(Tok::Comma),
            Seq::empty(),
            next(t, c),
        );
        match fields.res {
            Err(error) => failed(error, fields.to),
            Ok(args) => {
                let rpar = expect_one(t, fields.to, Tok::Rpar);
                match rpar.res {
                    Err(error) => failed(error, rpar.to),
                    Ok((_, end)) => found((args, end), rpar.to),
                }
            },
        }
    } else {
        found((Seq::empty(), 0), c)
    }
}

/// An argument of a constructor: a type, which may have a label. With a label its location is that
/// of the label.
pub open spec fn type_constructor_arg(t: Toks, c: Cursor) -> Step<
    Option<RecordConstructorArgView>,
> {
    match (peek(t, c), peek_second(t, c)) {
        (Some((start, Tok::Name { name }, _)), Some((_, Tok::Colon, end))) => {
            let typ = ty(t, next(t, next(t, c)), false);
            match typ.res {
                Err(error) => failed(error, typ.to),
                Ok(None) => error_at(ParseErrorType::ExpectedType, span(start, end), typ.to),
                Ok(Some(ast)) => found(
                    Some(
                        RecordConstructorArgView {
                            label: Some(name@),
                            ast,
                            location: span(start, end),
                        },
                    ),
                    typ.to,
                ),
            }
        },
        _ => {
            let typ = ty(t, c, false);
            match typ.res {
                Err(error) => failed(error, typ.to),
                Ok(None) => found(None, typ.to),
                Ok(Some(ast)) => found(
                    Some(
                        RecordConstructorArgView { label: None, ast, location: ast.location() },
                    ),
                    typ.to,
                ),
            }
        },
    }
}

/// An argument of a constructor, at a place of a stream.
pub open spec fn type_constructor_arg_in(t: Toks) -> spec_fn(Cursor) -> Step<
    Option<RecordConstructorArgView>,
> {
    |c: Cursor| type_constructor_arg(t, c)
}

/// The rest of an import, behind its `import`.
#[verifier::opaque]
pub open spec fn import(t: Toks, c: Cursor) -> Step<Option<StatementView>> {
    let path = import_path(t, c, 0, Seq::empty());
    match path.res {
        Err(error) => failed(error, path.to),
        Ok((start, module, end)) => {
            let names = if one(t, path.to, Tok::Dot) is Some {
                unqualified_in_braces(t, next(t, path.to))
            } else {
                found(Seq::empty(), path.to)
            };
            match names.res {
                Err(error) => failed(error, names.to),
                Ok(unqualified) => {
                    let alias = maybe_alias(t, names.to);
                    match alias.res {
                        Err(error) => failed(error, alias.to),
                        Ok(as_name) => found(
                            Some(
                                StatementView::Import {
                                    location: span(start, end),
                                    module,
                                    as_name,
                                    unqualified,
                                },
                            ),
                            alias.to,
                        ),
                    }
                },
            }
        },
    }
}

/// The names of which a module's path consists, behind those that have been read, and the offsets
/// between which all of them stand. A slash stands between them.
pub open spec fn import_path(t: Toks, c: Cursor, start: usize, before: Seq<Text>) -> Step<
    (usize, Seq<Text>, usize),
>
    decreases ahead(t, c),
{
    let named = expect_name(t, c);
    match named.res {
        Err(error) => failed(error, named.to),
        Ok((name_start, name, end)) => {
            let path_start = if before.len() == 0 {
                name_start
            } else {
                start
            };
            match one(t, named.to, Tok::SlashDot) {
                Some((slash, _)) => error_at(
                    ParseErrorType::ExpectedName,
                    span((slash + 1) as usize, (slash + 1) as usize),
                    next(t, named.to),
                ),
                None => if one(t, named.to, Tok::Slash) is Some {
                    import_path(t, next(t, named.to), path_start, before.push(name))
                } else {
                    found((path_start, before.push(name), end), named.to)
                },
            }
        },
    }
}

/// Names in braces that are imported without their module.
pub open spec fn unqualified_in_braces(t: Toks, c: Cursor) -> Step<Seq<UnqualifiedImportView>> {
    let lbrace = expect_one(t, c, Tok::Lbrace);
    match lbrace.res {
        Err(error) => failed(error, lbrace.to),
        Ok(_) => {
            let names = unqualified_imports(t, lbrace.to, Seq::empty());
            match names.res {
                Err(error) => failed(error, names.to),
                Ok(imports) => {
                    let rbrace = expect_one(t, names.to, Tok::Rbrace);
                    match rbrace.res {
                        Err(error) => failed(error, rbrace.to),
                        Ok(_) => found(imports, rbrace.to),
                    }
                },
            }
        },
    }
}

/// Imported names with commas between them, behind those that have been read.
pub open spec fn unqualified_imports(
    t: Toks,
    c: Cursor,
    before: Seq<UnqualifiedImportView>,
) -> Step<Seq<UnqualifiedImportView>>
    decreases ahead(t, c),
{
    let named = match maybe_name(t, c) {
        Some(name) => Some(name),
        None => maybe_upname(t, c),
    };
    match named {
        None => found(before, c),
        Some((start, name, end)) => {
            let alias = maybe_alias(t, next(t, c));
            match alias.res {
                Err(error) => failed(error, alias.to),
                Ok(as_name) => {
                    let imports = before.push(
                        UnqualifiedImportView { location: span(start, end), name, as_name },
                    );
                    if one(t, alias.to, Tok::Comma) is Some {
                        unqualified_imports(t, next(t, alias.to), imports)
                    } else {
                        found(imports, alias.to)
                    }
                },
            }
        },
    }
}

/// A name behind `as`, if that comes next.
pub open spec fn maybe_alias(t: Toks, c: Cursor) -> Step<Option<Text>> {
    if one(t, c, Tok::As) is Some {
        let named = expect_name(t, next(t, c));
        match named.res {
            Err(error) => failed(error, named.to),
            Ok((_, name, _)) => found(Some(name), named.to),
        }
    } else {
        found(None, c)
    }
}

/// The rest of a module constant, behind its `const`. Its location has no end.
#[verifier::opaque]
pub open spec fn module_const(t: Toks, c: Cursor, public: bool) -> Step<Option<StatementView>> {
    let named = expect_name(t, c);
    match named.res {
        Err(error) => failed(error, named.to),
        Ok((start, name, _)) => {
            let typ = type_annotation(t, named.to, Tok::Colon, true);
            match typ.res {
                Err(error) => failed(error, typ.to),
                Ok(annotation) => {
                    let equal = expect_one(t, typ.to, Tok::Equal);
                    match equal.res {
                        Err(error) => failed(error, equal.to),
                        Ok((equal_start, equal_end)) => {
                            let constant = const_value(t, equal.to);
                            match constant.res {
                                Err(error) => failed(error, constant.to),
                                Ok(None) => error_at(
                                    ParseErrorType::NoValueAfterEqual,
                                    span(equal_start, equal_end),
                                    constant.to,
                                ),
                                Ok(Some(value)) => found(
                                    Some(
                                        StatementView::ModuleConstant {
                                            doc: None,
                                            location: span(start, 0),
                                            public,
                                            name,
                                            annotation,
                                            value: Box::new(value),
                                        },
                                    ),
                                    constant.to,
                                ),
                            }
                        },
                    }
                },
            }
        },
    }
}

} // verus!
