//! Parsing of the segments of bit strings.
//!
//! The structure is the same for patterns, constants and expressions. Therefore these functions
//! take functions.

use crate::ast::{BitStringSegment, BitStringSegmentOption, SrcSpan};
use crate::error::{parse_error, ParseError, ParseErrorType};
use crate::grammar::basics::Step;
use crate::grammar::segments::{keyword_option, segment, segment_option, segment_option_in};
use crate::location::{location_in, HasLocation};
use crate::model::Text;
use crate::parser::{behind, did, did_find, Parser};
use crate::stream::Cursor;
use crate::token::Tok;
use vstd::prelude::*;

verus! {

impl Parser {
    // examples:
    //   value
    //   value: option
    //   value: option-option
    pub(crate) fn parse_bit_string_segment<A: HasLocation>(
        &mut self,
        value_parser: &impl Fn(&mut Parser) -> Result<Option<A>, ParseError>,
        arg_parser: &impl Fn(&mut Parser) -> Result<A, ParseError>,
        to_int_segment: &impl Fn(String, usize, usize) -> A,
        value: Ghost<spec_fn(Cursor) -> Step<Option<A::V>>>,
        arg: Ghost<spec_fn(Cursor) -> Step<A::V>>,
        number: Ghost<spec_fn(Text, usize, usize) -> A::V>,
    ) -> (result: Result<Option<BitStringSegment<A>>, ParseError>)
        requires
            old(self).wf(),
            forall|x: &mut Parser|
                behind(*old(self), *x) ==> #[trigger] call_requires(*value_parser, (x,)),
            forall|x: &mut Parser, found: Result<Option<A>, ParseError>|
                behind(*old(self), *x) && #[trigger] call_ensures(*value_parser, (x,), found)
                    ==> did_find(*x, *final(x), found, (value@)(x.cursor())),
            forall|x: &mut Parser|
                behind(*old(self), *x) ==> #[trigger] call_requires(*arg_parser, (x,)),
            forall|x: &mut Parser, found: Result<A, ParseError>|
                behind(*old(self), *x) && #[trigger] call_ensures(*arg_parser, (x,), found) ==> did(
                    *x,
                    *final(x),
                    found,
                    (arg@)(x.cursor()),
                ),
            forall|text: String, start: usize, end: usize| #[trigger]
                call_requires(*to_int_segment, (text, start, end)),
            forall|text: String, start: usize, end: usize, made: A| #[trigger]
                call_ensures(*to_int_segment, (text, start, end), made) ==> made.deep_view() == (
                number@)(text@, start, end),
        ensures
            did_find(
                *old(self),
                *final(self),
                result,
                segment(
                    (value@)(old(self).cursor()),
                    arg@,
                    number@,
                    location_in::<A>(),
                    old(self).toks(),
                ),
            ),
    {
        if let Some(value) = value_parser(self)? {
            let options = if self.maybe_one(&Tok::Colon).is_some() {
                let parser = |p: &mut Parser| -> (found: Result<
                    Option<BitStringSegmentOption<A>>,
                    ParseError,
                >)
                    requires
                        forall|x: &mut Parser|
                            behind(*old(p), *x) ==> #[trigger] call_requires(*arg_parser, (x,)),
                        forall|x: &mut Parser, found: Result<A, ParseError>|
                            behind(*old(p), *x) && #[trigger] call_ensures(
                                *arg_parser,
                                (x,),
                                found,
                            ) ==> did(*x, *final(x), found, (arg@)(x.cursor())),
                        p.wf(),
                    ensures
                        did_find(
                            *old(p),
                            *final(p),
                            found,
                            segment_option(arg@, number@, old(p).toks(), old(p).cursor()),
                        ),
                    { p.parse_bit_string_segment_option(arg_parser, to_int_segment, arg, number) };
                self.series_of(
                    &parser,
                    Some(&Tok::Minus),
                    Ghost(segment_option_in(arg@, number@, self.toks())),
                )?
            } else {
                let none: Vec<BitStringSegmentOption<A>> = vec![];
                assert(none.deep_view() =~= Seq::empty());
                none
            };
            proof {
                if options@.len() > 0 {
                    assert(options.deep_view().last() == options@.last().deep_view());
                }
            }
            let end = match options.last() {
                Some(option) => option.location().end,
                None => value.location().end,
            };
            Ok(
                Some(
                    BitStringSegment {
                        location: SrcSpan { start: value.location().start, end },
                        value: Box::new(value),
                        typ: (),
                        options,
                    },
                ),
            )
        } else {
            Ok(None)
        }
    }

    // examples:
    //   1
    //   size(1)
    //   size(five)
    //   utf8
    fn parse_bit_string_segment_option<A: DeepView>(
        &mut self,
        arg_parser: &impl Fn(&mut Parser) -> Result<A, ParseError>,
        to_int_segment: &impl Fn(String, usize, usize) -> A,
        arg: Ghost<spec_fn(Cursor) -> Step<A::V>>,
        number: Ghost<spec_fn(Text, usize, usize) -> A::V>,
    ) -> (result: Result<Option<BitStringSegmentOption<A>>, ParseError>)
        requires
            old(self).wf(),
            forall|x: &mut Parser|
                behind(*old(self), *x) ==> #[trigger] call_requires(*arg_parser, (x,)),
            forall|x: &mut Parser, found: Result<A, ParseError>|
                behind(*old(self), *x) && #[trigger] call_ensures(*arg_parser, (x,), found) ==> did(
                    *x,
                    *final(x),
                    found,
                    (arg@)(x.cursor()),
                ),
            forall|text: String, start: usize, end: usize| #[trigger]
                call_requires(*to_int_segment, (text, start, end)),
            forall|text: String, start: usize, end: usize, made: A| #[trigger]
                call_ensures(*to_int_segment, (text, start, end), made) ==> made.deep_view() == (
                number@)(text@, start, end),
        ensures
            did_find(
                *old(self),
                *final(self),
                result,
                segment_option(arg@, number@, old(self).toks(), old(self).cursor()),
            ),
    {
        match self.next_tok() {
            // named segment
            Some((start, Tok::Name { name }, end)) => {
                if self.maybe_one(&Tok::Lpar).is_some() {
                    // named function segment
                    let value = arg_parser(self)?;
                    let (_, end) = self.expect_one(&Tok::Rpar)?;
                    let location = SrcSpan { start, end };
                    if same_text(name.as_str(), "unit") {
                        Ok(
                            Some(
                                BitStringSegmentOption::Unit {
                                    location,
                                    value: Box::new(value),
                                    short_form: false,
                                },
                            ),
                        )
                    } else if same_text(name.as_str(), "size") {
                        Ok(
                            Some(
                                BitStringSegmentOption::Size {
                                    location,
                                    value: Box::new(value),
                                    short_form: false,
                                },
                            ),
                        )
                    } else {
                        parse_error(ParseErrorType::InvalidBitStringSegment, location)
                    }
                } else {
                    let location = SrcSpan { start, end };
                    match str_to_bit_string_segment_option(name.as_str(), location) {
                        Some(option) => Ok(Some(option)),
                        None => parse_error(ParseErrorType::InvalidBitStringSegment, location),
                    }
                }
            },
            // int segment
            Some((start, Tok::Int { value }, end)) => Ok(
                Some(
                    BitStringSegmentOption::Size {
                        location: SrcSpan { start, end },
                        value: Box::new(to_int_segment(value, start, end)),
                        short_form: true,
                    },
                ),
            ),
            // invalid
            _ => {
                let expected = vec![
                    "A valid bitstring segment type".to_string(),
                    "See: https://gleam.run/book/tour/bit-strings.html".to_string(),
                ];
                assert(expected.deep_view() =~= seq![
                    "A valid bitstring segment type"@,
                    "See: https://gleam.run/book/tour/bit-strings.html"@,
                ]);
                self.next_tok_unexpected(expected)
            },
        }
    }
}

/// Whether two strings hold the same text.
fn same_text(a: &str, b: &str) -> (same: bool)
    ensures
        same == (a@ == b@),
{
    a.to_string() == b.to_string()
}

/// The option of a bit string segment that a keyword stands for.
fn str_to_bit_string_segment_option<A: DeepView>(lit: &str, location: SrcSpan) -> (option: Option<
    BitStringSegmentOption<A>,
>)
    ensures
        option.deep_view() == keyword_option::<A::V>(lit@, location),
{
    if same_text(lit, "binary") || same_text(lit, "bytes") {
        Some(BitStringSegmentOption::Binary { location })
    } else if same_text(lit, "int") {
        Some(BitStringSegmentOption::Integer { location })
    } else if same_text(lit, "float") {
        Some(BitStringSegmentOption::Float { location })
    } else if same_text(lit, "bit_string") || same_text(lit, "bits") {
        Some(BitStringSegmentOption::BitString { location })
    } else if same_text(lit, "utf8") {
        Some(BitStringSegmentOption::UTF8 { location })
    } else if same_text(lit, "utf16") {
        Some(BitStringSegmentOption::UTF16 { location })
    } else if same_text(lit, "utf32") {
        Some(BitStringSegmentOption::UTF32 { location })
    } else if same_text(lit, "utf8_codepoint") {
        Some(BitStringSegmentOption::UTF8Codepoint { location })
    } else if same_text(lit, "utf16_codepoint") {
        Some(BitStringSegmentOption::UTF16Codepoint { location })
    } else if same_text(lit, "utf32_codepoint") {
        Some(BitStringSegmentOption::UTF32Codepoint { location })
    } else if same_text(lit, "signed") {
        Some(BitStringSegmentOption::Signed { location })
    } else if same_text(lit, "unsigned") {
        Some(BitStringSegmentOption::Unsigned { location })
    } else if same_text(lit, "big") {
        Some(BitStringSegmentOption::Big { location })
    } else if same_text(lit, "little") {
        Some(BitStringSegmentOption::Little { location })
    } else if same_text(lit, "native") {
        Some(BitStringSegmentOption::Native { location })
    } else {
        None
    }
}

} // verus!
