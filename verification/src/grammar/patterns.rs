//! Patterns.

use crate::ast::Pattern;
use crate::error::ParseErrorType;
use crate::grammar::basics::{
    error_at, expect_name, expect_one, expect_upname, failed, found, one, series, skip_one, some_of,
    span, unexpected, Step,
};
use crate::grammar::segments::segment;
use crate::location::location_in;
use crate::model::{CallArgView, PatternView, SegmentView, Text};
use crate::stream::{ahead, from, next, peek, peek_second, Cursor, Toks};
use crate::token::Tok;
use vstd::prelude::*;

verus! {

/// The left side of a binding or of a case clause.
pub open spec fn pattern(t: Toks, c: Cursor) -> Step<Option<PatternView>>
    decreases ahead(t, c), 2nat,
{
    let bare = bare_pattern(t, c);
    match bare.res {
        Ok(Some(inner)) => if one(t, bare.to, Tok::As) is Some {
            let alias = expect_name(t, next(t, bare.to));
            match alias.res {
                Err(error) => failed(error, alias.to),
                Ok((_, name, _)) => found(
                    Some(PatternView::Let { name, pattern: Box::new(inner) }),
                    alias.to,
                ),
            }
        } else {
            bare
        },
        _ => bare,
    }
}

/// A pattern without a name behind `as`.
pub open spec fn bare_pattern(t: Toks, c: Cursor) -> Step<Option<PatternView>>
    decreases ahead(t, c), 1nat,
{
    let to = next(t, c);
    match peek(t, c) {
        Some((start, Tok::Name { name }, end)) => if one(t, to, Tok::Dot) is Some {
            some_of(constructor_pattern(t, next(t, to), Some((start, name@))))
        } else {
            found(Some(PatternView::Var { location: span(start, end), name: name@ }), to)
        },
        Some((start, Tok::UpName { name }, end)) => some_of(constructor_pattern(t, c, None)),
        Some((start, Tok::DiscardName { name }, end)) => found(
            Some(PatternView::Discard { location: span(start, end), name: name@ }),
            to,
        ),
        Some((start, Tok::String { value }, end)) => found(
            Some(PatternView::String { location: span(start, end), value: value@ }),
            to,
        ),
        Some((start, Tok::Int { value }, end)) => found(
            Some(PatternView::Int { location: span(start, end), value: value@ }),
            to,
        ),
        Some((start, Tok::Float { value }, end)) => found(
            Some(PatternView::Float { location: span(start, end), value: value@ }),
            to,
        ),
        Some((start, Tok::ListNil, end)) => found(
            Some(PatternView::Nil { location: span(start, end) }),
            to,
        ),
        Some((start, Tok::Tuple, _)) => some_of(tuple_pattern(t, to, start)),
        Some((start, Tok::LtLt, _)) => some_of(bit_string_pattern(t, to, start)),
        Some((start, Tok::Lsqb, _)) => some_of(list_pattern(t, to, start)),
        _ => found(None, c),
    }
}

/// The rest of a tuple pattern, behind its `tuple`.
pub open spec fn tuple_pattern(t: Toks, c: Cursor, start: usize) -> Step<PatternView>
    decreases ahead(t, c), 5nat,
{
    let lpar = expect_one(t, c, Tok::Lpar);
    match lpar.res {
        Err(error) => failed(error, lpar.to),
        Ok(_) => {
            let elems = patterns(t, lpar.to);
            match elems.res {
                Err(error) => failed(error, elems.to),
                Ok(elements) => {
                    let rpar = expect_one(t, elems.to, Tok::Rpar);
                    match rpar.res {
                        Err(error) => failed(error, rpar.to),
                        Ok((_, end)) => found(
                            PatternView::Tuple { location: span(start, end), elems: elements },
                            rpar.to,
                        ),
                    }
                },
            }
        },
    }
}

/// The rest of a bit string pattern, behind its `<<`.
pub open spec fn bit_string_pattern(t: Toks, c: Cursor, start: usize) -> Step<PatternView>
    decreases ahead(t, c), 5nat,
{
    let parts = series(pattern_segment_from(t, c), t, Some(Tok::Comma), Seq::empty(), c);
    match parts.res {
        Err(error) => failed(error, parts.to),
        Ok(segments) => {
            let close = expect_one(t, parts.to, Tok::GtGt);
            match close.res {
                Err(error) => failed(error, close.to),
                Ok((_, end)) => found(
                    PatternView::BitString { location: span(start, end), segments },
                    close.to,
                ),
            }
        },
    }
}

/// The rest of a list pattern, behind its `[`.
pub open spec fn list_pattern(t: Toks, c: Cursor, start: usize) -> Step<PatternView>
    decreases ahead(t, c), 5nat,
{
    let elems = patterns(t, c);
    match elems.res {
        Err(error) => failed(error, elems.to),
        Ok(elements) => {
            let rest = if one(t, elems.to, Tok::DotDot) is Some {
                let pat = pattern(t, from(t, c, next(t, elems.to)));
                match pat.res {
                    Err(error) => failed(error, pat.to),
                    Ok(tail) => found(Some(tail), skip_one(t, pat.to, Tok::Comma)),
                }
            } else {
                found(None, elems.to)
            };
            match rest.res {
                Err(error) => failed(error, rest.to),
                Ok(tail) => {
                    let rsqb = expect_one(t, rest.to, Tok::Rsqb);
                    match rsqb.res {
                        Err(error) => failed(error, rsqb.to),
                        Ok((_, end)) => match tail {
                            // A tail that is more than a name
                            Some(Some(pat)) if !(pat is Var || pat is Discard) => error_at(
                                ParseErrorType::InvalidTailPattern,
                                pat.location(),
                                rsqb.to,
                            ),
                            _ => found(
                                starting_at(list_of(elements, tail_pattern(tail, end)), start),
                                rsqb.to,
                            ),
                        },
                    }
                },
            }
        },
    }
}

/// The tail of a list pattern that ends at an offset. Behind `..` it may be left out and is then
/// discarded; without `..` the list ends.
pub open spec fn tail_pattern(tail: Option<Option<PatternView>>, end: usize) -> PatternView {
    let location = span((end - 1) as usize, end);
    match tail {
        Some(Some(pat)) => pat,
        Some(None) => PatternView::Discard { location, name: "_"@ },
        None => PatternView::Nil { location },
    }
}

/// The pattern of a list that starts with some elements and goes on with a tail.
pub open spec fn list_of(elements: Seq<PatternView>, tail: PatternView) -> PatternView
    decreases elements.len(),
{
    if elements.len() == 0 {
        tail
    } else {
        PatternView::Cons {
            location: elements[0].location(),
            head: Box::new(elements[0]),
            tail: Box::new(list_of(elements.drop_first(), tail)),
        }
    }
}

/// A list pattern with at least one element, moved to start at an offset.
pub open spec fn starting_at(pat: PatternView, start: usize) -> PatternView {
    match pat {
        PatternView::Cons { location, head, tail } => PatternView::Cons {
            location: span(start, location.end),
            head,
            tail,
        },
        _ => pat,
    }
}

/// A constructor with its arguments, behind the name and the dot of a module if there are any.
pub open spec fn constructor_pattern(
    t: Toks,
    c: Cursor,
    module: Option<(usize, Text)>,
) -> Step<PatternView>
    decreases ahead(t, c), 0nat,
{
    let upname = expect_upname(t, c);
    match upname.res {
        Err(error) => failed(error, upname.to),
        Ok((upname_start, name, upname_end)) => {
            let rest = constructor_args(t, upname.to, upname_end);
            match rest.res {
                Err(error) => failed(error, rest.to),
                Ok((args, with_spread, end)) => found(
                    PatternView::Constructor {
                        location: span(
                            match module {
                                Some((start, _)) => start,
                                None => upname_start,
                            },
                            end,
                        ),
                        name,
                        args,
                        module: match module {
                            Some((_, module_name)) => Some(module_name),
                            None => None,
                        },
                        with_spread,
                    },
                    rest.to,
                ),
            }
        },
    }
}

/// The arguments of a constructor, whether there is a `..` among them, and where they end.
pub open spec fn constructor_args(t: Toks, c: Cursor, upname_end: usize) -> Step<
    (Seq<CallArgView<PatternView>>, bool, usize),
>
    decreases ahead(t, c), 5nat,
{
    if one(t, c, Tok::Lpar) is Some {
        let inner = next(t, c);
        let args = series(constructor_arg_from(t, inner), t, Some(Tok::Comma), Seq::empty(), inner);
        match args.res {
            Err(error) => failed(error, args.to),
            Ok(arguments) => {
                let with_spread = one(t, args.to, Tok::DotDot) is Some;
                let last = if with_spread {
                    skip_one(t, next(t, args.to), Tok::Comma)
                } else {
                    args.to
                };
                let rpar = expect_one(t, last, Tok::Rpar);
                match rpar.res {
                    Err(error) => failed(error, rpar.to),
                    Ok((_, end)) => found((arguments, with_spread, end), rpar.to),
                }
            },
        }
    } else {
        found((Seq::empty(), false, upname_end), c)
    }
}

/// An argument of a constructor, which may have a label.
pub open spec fn constructor_arg(t: Toks, c: Cursor) -> Step<Option<CallArgView<PatternView>>>
    decreases ahead(t, c), 3nat,
{
    match (peek(t, c), peek_second(t, c)) {
        (
            Some((start, Tok::Name { name }, _)),
            Some((colon_start, Tok::Colon, colon_end)),
        ) => {
            let pat = pattern(t, next(t, next(t, c)));
            match pat.res {
                Err(error) => failed(error, pat.to),
                Ok(None) => error_at(
                    ParseErrorType::ExpectedPattern,
                    span(colon_start, colon_end),
                    pat.to,
                ),
                Ok(Some(value)) => found(
                    Some(
                        CallArgView {
                            label: Some(name@),
                            location: span(start, value.location().end),
                            value,
                        },
                    ),
                    pat.to,
                ),
            }
        },
        _ => {
            let pat = pattern(t, c);
            match pat.res {
                Err(error) => failed(error, pat.to),
                Ok(None) => found(None, pat.to),
                Ok(Some(value)) => found(
                    Some(CallArgView { label: None, location: value.location(), value }),
                    pat.to,
                ),
            }
        },
    }
}

/// An argument of a constructor at a place behind `c`.
pub open spec fn constructor_arg_from(t: Toks, c: Cursor) -> spec_fn(Cursor) -> Step<
    Option<CallArgView<PatternView>>,
>
    decreases ahead(t, c), 4nat,
{
    |d: Cursor| constructor_arg(t, from(t, c, d))
}

/// Patterns with commas between them.
pub open spec fn patterns(t: Toks, c: Cursor) -> Step<Seq<PatternView>>
    decreases ahead(t, c), 4nat,
{
    series(pattern_from(t, c), t, Some(Tok::Comma), Seq::empty(), c)
}

/// A pattern at a place behind `c`.
pub open spec fn pattern_from(t: Toks, c: Cursor) -> spec_fn(Cursor) -> Step<Option<PatternView>>
    decreases ahead(t, c), 3nat,
{
    |d: Cursor| pattern(t, from(t, c, d))
}

/// A segment of a bit string pattern.
pub open spec fn pattern_segment(t: Toks, c: Cursor) -> Step<Option<SegmentView<PatternView>>>
    decreases ahead(t, c), 3nat,
{
    segment(
        pattern(t, c),
        pattern_segment_arg_in(t),
        pattern_number(),
        location_in::<Pattern>(),
        t,
    )
}

/// A segment of a bit string pattern at a place behind `c`.
pub open spec fn pattern_segment_from(t: Toks, c: Cursor) -> spec_fn(Cursor) -> Step<
    Option<SegmentView<PatternView>>,
>
    decreases ahead(t, c), 4nat,
{
    |d: Cursor| pattern_segment(t, from(t, c, d))
}

/// The argument of an option of a bit string pattern: a variable or a number.
pub open spec fn pattern_segment_arg(t: Toks, c: Cursor) -> Step<PatternView> {
    let to = next(t, c);
    match peek(t, c) {
        Some((start, Tok::Name { name }, end)) => found(
            PatternView::VarCall { location: span(start, end), name: name@ },
            to,
        ),
        Some((start, Tok::Int { value }, end)) => found(
            PatternView::Int { location: span(start, end), value: value@ },
            to,
        ),
        _ => unexpected(t, to, seq!["A variable name or an integer"@]),
    }
}

/// The argument of an option of a bit string pattern, at a place of a stream.
pub open spec fn pattern_segment_arg_in(t: Toks) -> spec_fn(Cursor) -> Step<PatternView> {
    |c: Cursor| pattern_segment_arg(t, c)
}

/// A number as a pattern.
pub open spec fn pattern_number() -> spec_fn(Text, usize, usize) -> PatternView {
    |value: Text, start: usize, end: usize|
        PatternView::Int { location: span(start, end), value }
}

} // verus!
