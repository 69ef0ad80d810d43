//! Segments of bit strings, which are alike in patterns, constants and expressions.

use crate::ast::SrcSpan;
use crate::error::ParseErrorType;
use crate::grammar::basics::{
    error_at, expect_one, failed, found, one, series, span, unexpected, Step,
};
use crate::model::{SegmentOptionView, SegmentView, Text};
use crate::stream::{next, peek, Cursor, Toks};
use crate::token::Tok;
use vstd::prelude::*;

verus! {

/// A value that was looked for first, with options behind a colon.
pub open spec fn segment<V>(
    first: Step<Option<V>>,
    arg: spec_fn(Cursor) -> Step<V>,
    number: spec_fn(Text, usize, usize) -> V,
    location: spec_fn(V) -> SrcSpan,
    t: Toks,
) -> Step<Option<SegmentView<V>>> {
    match first.res {
        Err(error) => failed(error, first.to),
        Ok(None) => found(None, first.to),
        Ok(Some(v)) => {
            let opts = if one(t, first.to, Tok::Colon) is Some {
                series(
                    segment_option_in(arg, number, t),
                    t,
                    Some(Tok::Minus),
                    Seq::empty(),
                    next(t, first.to),
                )
            } else {
                found(Seq::empty(), first.to)
            };
            match opts.res {
                Err(error) => failed(error, opts.to),
                Ok(options) => found(
                    Some(
                        SegmentView {
                            location: span(
                                location(v).start,
                                if options.len() > 0 {
                                    options.last().location().end
                                } else {
                                    location(v).end
                                },
                            ),
                            value: Box::new(v),
                            options,
                        },
                    ),
                    opts.to,
                ),
            }
        },
    }
}

/// An option of a segment: a number, a keyword, or `size` or `unit` with an argument.
pub open spec fn segment_option<V>(
    arg: spec_fn(Cursor) -> Step<V>,
    number: spec_fn(Text, usize, usize) -> V,
    t: Toks,
    c: Cursor,
) -> Step<Option<SegmentOptionView<V>>> {
    let to = next(t, c);
    match peek(t, c) {
        Some((start, Tok::Name { name }, end)) => if one(t, to, Tok::Lpar) is Some {
            let inner = arg(next(t, to));
            match inner.res {
                Err(error) => failed(error, inner.to),
                Ok(v) => {
                    let rpar = expect_one(t, inner.to, Tok::Rpar);
                    match rpar.res {
                        Err(error) => failed(error, rpar.to),
                        Ok((_, rpar_end)) => {
                            let location = span(start, rpar_end);
                            let value = Box::new(v);
                            let short_form = false;
                            if name@ == "unit"@ {
                                found(
                                    Some(SegmentOptionView::Unit { location, value, short_form }),
                                    rpar.to,
                                )
                            } else if name@ == "size"@ {
                                found(
                                    Some(SegmentOptionView::Size { location, value, short_form }),
                                    rpar.to,
                                )
                            } else {
                                error_at(
                                    ParseErrorType::InvalidBitStringSegment,
                                    location,
                                    rpar.to,
                                )
                            }
                        },
                    }
                },
            }
        } else {
            match keyword_option::<V>(name@, span(start, end)) {
                Some(option) => found(Some(option), to),
                None => error_at(ParseErrorType::InvalidBitStringSegment, span(start, end), to),
            }
        },
        Some((start, Tok::Int { value }, end)) => found(
            Some(
                SegmentOptionView::Size {
                    location: span(start, end),
                    value: Box::new(number(value@, start, end)),
                    short_form: true,
                },
            ),
            to,
        ),
        _ => unexpected(
            t,
            to,
            seq![
                "A valid bitstring segment type"@,
                "See: https://gleam.run/book/tour/bit-strings.html"@,
            ],
        ),
    }
}

/// An option of a segment, at a place of a stream.
pub open spec fn segment_option_in<V>(
    arg: spec_fn(Cursor) -> Step<V>,
    number: spec_fn(Text, usize, usize) -> V,
    t: Toks,
) -> spec_fn(Cursor) -> Step<Option<SegmentOptionView<V>>> {
    |c: Cursor| segment_option(arg, number, t, c)
}

/// The option that a keyword stands for.
pub open spec fn keyword_option<V>(lit: Text, location: SrcSpan) -> Option<SegmentOptionView<V>> {
    if lit == "binary"@ || lit == "bytes"@ {
        Some(SegmentOptionView::Binary { location })
    } else if lit == "int"@ {
        Some(SegmentOptionView::Integer { location })
    } else if lit == "float"@ {
        Some(SegmentOptionView::Float { location })
    } else if lit == "bit_string"@ || lit == "bits"@ {
        Some(SegmentOptionView::BitString { location })
    } else if lit == "utf8"@ {
        Some(SegmentOptionView::UTF8 { location })
    } else if lit == "utf16"@ {
        Some(SegmentOptionView::UTF16 { location })
    } else if lit == "utf32"@ {
        Some(SegmentOptionView::UTF32 { location })
    } else if lit == "utf8_codepoint"@ {
        Some(SegmentOptionView::UTF8Codepoint { location })
    } else if lit == "utf16_codepoint"@ {
        Some(SegmentOptionView::UTF16Codepoint { location })
    } else if lit == "utf32_codepoint"@ {
        Some(SegmentOptionView::UTF32Codepoint { location })
    } else if lit == "signed"@ {
        Some(SegmentOptionView::Signed { location })
    } else if lit == "unsigned"@ {
        Some(SegmentOptionView::Unsigned { location })
    } else if lit == "big"@ {
        Some(SegmentOptionView::Big { location })
    } else if lit == "little"@ {
        Some(SegmentOptionView::Little { location })
    } else if lit == "native"@ {
        Some(SegmentOptionView::Native { location })
    } else {
        None
    }
}

} // verus!
