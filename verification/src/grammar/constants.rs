//! Constant expressions.

use crate::ast::Constant;
use crate::error::ParseErrorType;
use crate::grammar::basics::{
    error_at, expect_one, expect_upname, failed, found, one, series, some_of, span, unexpected,
    Step,
};
use crate::grammar::segments::segment;
use crate::location::location_in;
use crate::model::{CallArgView, ConstantView, SegmentView, Text};
use crate::stream::{ahead, from, give_up, next, peek, peek_second, Cursor, Toks};
use crate::token::Tok;
use vstd::prelude::*;

verus! {

/// A constant.
pub open spec fn const_value(t: Toks, c: Cursor) -> Step<Option<ConstantView>>
    decreases ahead(t, c), 0nat,
{
    let to = next(t, c);
    match peek(t, c) {
        Some((start, Tok::String { value }, end)) => found(
            Some(ConstantView::String { location: span(start, end), value: value@ }),
            to,
        ),
        Some((start, Tok::Float { value }, end)) => found(
            Some(ConstantView::Float { location: span(start, end), value: value@ }),
            to,
        ),
        Some((start, Tok::Int { value }, end)) => found(
            Some(ConstantView::Int { location: span(start, end), value: value@ }),
            to,
        ),
        Some((start, Tok::Tuple, _)) => some_of(const_tuple(t, to, start)),
        Some((start, Tok::Lsqb, _)) => some_of(const_list(t, to, start)),
        Some((start, Tok::LtLt, _)) => some_of(const_bit_string(t, to, start)),
        Some((start, Tok::UpName { name }, end)) => const_record_finish(
            t,
            to,
            start,
            None,
            name@,
            end,
        ),
        Some((start, Tok::Name { name }, end)) => {
            let dot = expect_one(t, to, Tok::Dot);
            match dot.res {
                Err(_) => error_at(ParseErrorType::NotConstType, span(start, end), dot.to),
                Ok(_) => {
                    let upname = expect_upname(t, dot.to);
                    match upname.res {
                        Err(error) => failed(error, upname.to),
                        Ok((_, upname_text, upname_end)) => const_record_finish(
                            t,
                            upname.to,
                            start,
                            Some(name@),
                            upname_text,
                            upname_end,
                        ),
                    }
                },
            }
        },
        // An empty list or a function, neither of which is taken out of the stream
        Some((start, Tok::ListNil, end)) => error_at(
            ParseErrorType::ListNilNotAllowed,
            span(start, end),
            give_up(c),
        ),
        Some((start, Tok::Fn, end)) => error_at(
            ParseErrorType::NotConstType,
            span(start, end),
            give_up(c),
        ),
        _ => found(None, c),
    }
}

/// The rest of a constant tuple, behind its `tuple`.
pub open spec fn const_tuple(t: Toks, c: Cursor, start: usize) -> Step<ConstantView>
    decreases ahead(t, c), 3nat,
{
    let lpar = expect_one(t, c, Tok::Lpar);
    match lpar.res {
        Err(error) => failed(error, lpar.to),
        Ok(_) => {
            let elems = const_values(t, lpar.to);
            match elems.res {
                Err(error) => failed(error, elems.to),
                Ok(elements) => {
                    let rpar = expect_one(t, elems.to, Tok::Rpar);
                    match rpar.res {
                        Err(error) => failed(error, rpar.to),
                        Ok((_, end)) => found(
                            ConstantView::Tuple { location: span(start, end), elements },
                            rpar.to,
                        ),
                    }
                },
            }
        },
    }
}

/// The rest of a constant list, behind its `[`.
pub open spec fn const_list(t: Toks, c: Cursor, start: usize) -> Step<ConstantView>
    decreases ahead(t, c), 3nat,
{
    let elems = const_values(t, c);
    match elems.res {
        Err(error) => failed(error, elems.to),
        Ok(elements) => {
            let rsqb = expect_one(t, elems.to, Tok::Rsqb);
            match rsqb.res {
                Err(error) => failed(error, rsqb.to),
                Ok((_, end)) => found(
                    ConstantView::List { location: span(start, end), elements },
                    rsqb.to,
                ),
            }
        },
    }
}

/// The rest of a constant bit string, behind its `<<`.
pub open spec fn const_bit_string(t: Toks, c: Cursor, start: usize) -> Step<ConstantView>
    decreases ahead(t, c), 3nat,
{
    let parts = series(const_segment_from(t, c), t, Some(Tok::Comma), Seq::empty(), c);
    match parts.res {
        Err(error) => failed(error, parts.to),
        Ok(segments) => {
            let close = expect_one(t, parts.to, Tok::GtGt);
            match close.res {
                Err(error) => failed(error, close.to),
                Ok((_, end)) => found(
                    ConstantView::BitString { location: span(start, end), segments },
                    close.to,
                ),
            }
        },
    }
}

/// The arguments of a record constructor, if there are any, and with them the constant.
pub open spec fn const_record_finish(
    t: Toks,
    c: Cursor,
    start: usize,
    module: Option<Text>,
    name: Text,
    end: usize,
) -> Step<Option<ConstantView>>
    decreases ahead(t, c), 3nat,
{
    if one(t, c, Tok::Lpar) is Some {
        let inner = next(t, c);
        let args = series(
            const_record_arg_from(t, inner),
            t,
            Some(Tok::Comma),
            Seq::empty(),
            inner,
        );
        match args.res {
            Err(error) => failed(error, args.to),
            Ok(arguments) => {
                let rpar = expect_one(t, args.to, Tok::Rpar);
                match rpar.res {
                    Err(error) => failed(error, rpar.to),
                    Ok((_, rpar_end)) => found(
                        Some(
                            ConstantView::Record {
                                location: span(start, rpar_end),
                                module,
                                name,
                                args: arguments,
                            },
                        ),
                        rpar.to,
                    ),
                }
            },
        }
    } else {
        found(
            Some(
                ConstantView::Record {
                    location: span(start, end),
                    module,
                    name,
                    args: Seq::empty(),
                },
            ),
            c,
        )
    }
}

/// An argument of a constant record, which may have a label.
pub open spec fn const_record_arg(t: Toks, c: Cursor) -> Step<Option<CallArgView<ConstantView>>>
    decreases ahead(t, c), 1nat,
{
    match (peek(t, c), peek_second(t, c)) {
        (Some((start, Tok::Name { name }, _)), Some((_, Tok::Colon, _))) => {
            let constant = const_value(t, next(t, next(t, c)));
            match constant.res {
                Err(error) => failed(error, constant.to),
                Ok(None) => unexpected(t, constant.to, seq!["a constant value"@]),
                Ok(Some(value)) => found(
                    Some(
                        CallArgView {
                            label: Some(name@),
                            location: span(start, value.location().end),
                            value,
                        },
                    ),
                    constant.to,
                ),
            }
        },
        _ => {
            let constant = const_value(t, c);
            match constant.res {
                Err(error) => failed(error, constant.to),
                Ok(None) => found(None, constant.to),
                Ok(Some(value)) => found(
                    Some(CallArgView { label: None, location: value.location(), value }),
                    constant.to,
                ),
            }
        },
    }
}

/// An argument of a constant record at a place behind `c`.
pub open spec fn const_record_arg_from(t: Toks, c: Cursor) -> spec_fn(Cursor) -> Step<
    Option<CallArgView<ConstantView>>,
>
    decreases ahead(t, c), 2nat,
{
    |d: Cursor| const_record_arg(t, from(t, c, d))
}

/// Constants with commas between them.
pub open spec fn const_values(t: Toks, c: Cursor) -> Step<Seq<ConstantView>>
    decreases ahead(t, c), 2nat,
{
    series(const_value_from(t, c), t, Some(Tok::Comma), Seq::empty(), c)
}

/// A constant at a place behind `c`.
pub open spec fn const_value_from(t: Toks, c: Cursor) -> spec_fn(Cursor) -> Step<
    Option<ConstantView>,
>
    decreases ahead(t, c), 1nat,
{
    |d: Cursor| const_value(t, from(t, c, d))
}

/// A segment of a constant bit string.
pub open spec fn const_segment(t: Toks, c: Cursor) -> Step<Option<SegmentView<ConstantView>>>
    decreases ahead(t, c), 1nat,
{
    segment(const_value(t, c), const_int_in(t), const_number(), location_in::<Constant>(), t)
}

/// A segment of a constant bit string at a place behind `c`.
pub open spec fn const_segment_from(t: Toks, c: Cursor) -> spec_fn(Cursor) -> Step<
    Option<SegmentView<ConstantView>>,
>
    decreases ahead(t, c), 2nat,
{
    |d: Cursor| const_segment(t, from(t, c, d))
}

/// The argument of an option of a constant bit string: a number.
pub open spec fn const_int(t: Toks, c: Cursor) -> Step<ConstantView> {
    let to = next(t, c);
    match peek(t, c) {
        Some((start, Tok::Int { value }, end)) => found(
            ConstantView::Int { location: span(start, end), value: value@ },
            to,
        ),
        _ => unexpected(t, to, seq!["A variable name or an integer"@]),
    }
}

/// The argument of an option of a constant bit string, at a place of a stream.
pub open spec fn const_int_in(t: Toks) -> spec_fn(Cursor) -> Step<ConstantView> {
    |c: Cursor| const_int(t, c)
}

/// A number as a constant.
pub open spec fn const_number() -> spec_fn(Text, usize, usize) -> ConstantView {
    |value: Text, start: usize, end: usize|
        ConstantView::Int { location: span(start, end), value }
}

} // verus!
