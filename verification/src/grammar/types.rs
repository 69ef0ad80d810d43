//! Types and type annotations.

use crate::error::ParseErrorType;
use crate::grammar::basics::{
    error_at, expect_one, expect_upname, failed, found, one, series, span, Step,
};
use crate::model::{Text, TypeView};
use crate::stream::{ahead, from, next, peek, Cursor, Toks};
use crate::token::Tok;
use vstd::prelude::*;

verus! {

/// A type. The type of a constant has neither functions nor type variables in it.
pub open spec fn ty(t: Toks, c: Cursor, for_const: bool) -> Step<Option<TypeView>>
    decreases ahead(t, c), 0nat,
{
    let to = next(t, c);
    match peek(t, c) {
        Some((start, Tok::DiscardName { name }, end)) => found(
            Some(TypeView::Hole { location: span(start, end), name: name@ }),
            to,
        ),
        Some((start, Tok::Tuple, end)) => {
            let lpar = expect_one(t, to, Tok::Lpar);
            match lpar.res {
                Err(error) => failed(error, lpar.to),
                Ok(_) => {
                    let elems = types(t, lpar.to, for_const);
                    match elems.res {
                        Err(error) => failed(error, elems.to),
                        Ok(elements) => {
                            let rpar = expect_one(t, elems.to, Tok::Rpar);
                            match rpar.res {
                                Err(error) => failed(error, rpar.to),
                                Ok(_) => found(
                                    Some(
                                        TypeView::Tuple {
                                            location: span(start, end),
                                            elems: elements,
                                        },
                                    ),
                                    rpar.to,
                                ),
                            }
                        },
                    }
                },
            }
        },
        Some((start, Tok::Fn, end)) => if for_const {
            error_at(ParseErrorType::NotConstType, span(start, end), to)
        } else {
            fn_type(t, to, start)
        },
        Some((start, Tok::UpName { name }, end)) => type_name_finish(
            t,
            to,
            for_const,
            start,
            None,
            name@,
            end,
        ),
        Some((start, Tok::Name { name }, end)) => if one(t, to, Tok::Dot) is Some {
            let upname = expect_upname(t, next(t, to));
            match upname.res {
                Err(error) => failed(error, upname.to),
                Ok((_, upname_text, upname_end)) => type_name_finish(
                    t,
                    upname.to,
                    for_const,
                    start,
                    Some(name@),
                    upname_text,
                    upname_end,
                ),
            }
        } else if for_const {
            error_at(ParseErrorType::NotConstType, span(start, end), to)
        } else {
            found(Some(TypeView::Var { location: span(start, end), name: name@ }), to)
        },
        _ => found(None, c),
    }
}

/// The rest of a function type, behind its `fn`.
pub open spec fn fn_type(t: Toks, c: Cursor, start: usize) -> Step<Option<TypeView>>
    decreases ahead(t, c), 3nat,
{
    let lpar = expect_one(t, c, Tok::Lpar);
    match lpar.res {
        Err(error) => failed(error, lpar.to),
        Ok(_) => {
            let args = types(t, lpar.to, false);
            match args.res {
                Err(error) => failed(error, args.to),
                Ok(arguments) => {
                    let rpar = expect_one(t, args.to, Tok::Rpar);
                    match rpar.res {
                        Err(error) => failed(error, rpar.to),
                        Ok(_) => {
                            let arrow = expect_one(t, rpar.to, Tok::RArrow);
                            match arrow.res {
                                Err(error) => failed(error, arrow.to),
                                Ok((arrow_start, arrow_end)) => {
                                    let retrn = ty(t, from(t, c, arrow.to), false);
                                    match retrn.res {
                                        Err(error) => failed(error, retrn.to),
                                        Ok(None) => error_at(
                                            ParseErrorType::ExpectedType,
                                            span(arrow_start, arrow_end),
                                            retrn.to,
                                        ),
                                        Ok(Some(result)) => found(
                                            Some(
                                                TypeView::Fn {
                                                    location: span(start, result.location().end),
                                                    args: arguments,
                                                    retrn: Box::new(result),
                                                },
                                            ),
                                            retrn.to,
                                        ),
                                    }
                                },
                            }
                        },
                    }
                },
            }
        },
    }
}

/// The arguments of a type constructor, if there are any, and with them the type.
pub open spec fn type_name_finish(
    t: Toks,
    c: Cursor,
    for_const: bool,
    start: usize,
    module: Option<Text>,
    name: Text,
    end: usize,
) -> Step<Option<TypeView>>
    decreases ahead(t, c), 3nat,
{
    if one(t, c, Tok::Lpar) is Some {
        let args = types(t, next(t, c), for_const);
        match args.res {
            Err(error) => failed(error, args.to),
            Ok(arguments) => {
                let rpar = expect_one(t, args.to, Tok::Rpar);
                match rpar.res {
                    Err(error) => failed(error, rpar.to),
                    Ok((_, rpar_end)) => found(
                        Some(
                            TypeView::Constructor {
                                location: span(start, rpar_end),
                                module,
                                name,
                                args: arguments,
                            },
                        ),
                        rpar.to,
                    ),
                }
            },
        }
    } else {
        found(
            Some(
                TypeView::Constructor {
                    location: span(start, end),
                    module,
                    name,
                    args: Seq::empty(),
                },
            ),
            c,
        )
    }
}

/// Types with commas between them.
pub open spec fn types(t: Toks, c: Cursor, for_const: bool) -> Step<Seq<TypeView>>
    decreases ahead(t, c), 2nat,
{
    series(ty_from(t, c, for_const), t, Some(Tok::Comma), Seq::empty(), c)
}

/// A type at a place behind `c`.
pub open spec fn ty_from(t: Toks, c: Cursor, for_const: bool) -> spec_fn(Cursor) -> Step<
    Option<TypeView>,
>
    decreases ahead(t, c), 1nat,
{
    |d: Cursor| ty(t, from(t, c, d), for_const)
}

/// A type behind a token that announces it, if that token comes next.
pub open spec fn type_annotation(
    t: Toks,
    c: Cursor,
    start_tok: Tok,
    for_const: bool,
) -> Step<Option<TypeView>> {
    match one(t, c, start_tok) {
        None => found(None, c),
        Some((start, end)) => {
            let step = ty(t, next(t, c), for_const);
            match step.res {
                Ok(None) => error_at(ParseErrorType::ExpectedType, span(start, end), step.to),
                _ => step,
            }
        },
    }
}

} // verus!
