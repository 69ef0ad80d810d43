//! Parsing of constants.

use crate::ast::{BitStringSegment, CallArg, Constant, SrcSpan};
use crate::error::{parse_error, ParseError, ParseErrorType};
use crate::grammar::constants::{
    const_bit_string, const_int, const_int_in, const_list, const_number, const_record_arg,
    const_record_arg_from, const_record_finish, const_segment, const_segment_from, const_tuple,
    const_value, const_value_from, const_values,
};
use crate::location::HasLocation;
use crate::model::{
    constant_args_view_is_deep_view, constant_segments_view_is_deep_view,
    constants_view_is_deep_view,
};
use crate::parser::{did, did_find, Parser};
use crate::token::Tok;
use vstd::prelude::*;

verus! {

impl Parser {
    // examples:
    //   1
    //   "hi"
    //   True
    //   [1,2,3]
    pub(crate) fn parse_const_value(&mut self) -> (result: Result<Option<Constant>, ParseError>)
        requires
            old(self).wf(),
        ensures
            did_find(
                *old(self),
                *final(self),
                result,
                const_value(old(self).toks(), old(self).cursor()),
            ),
        decreases old(self).ahead(), 0nat,
    {
        match self.take_tok() {
            Some((start, Tok::String { value }, end)) => {
                let _ = self.next_tok();
                Ok(Some(Constant::String { value, location: SrcSpan { start, end } }))
            },
            Some((start, Tok::Float { value }, end)) => {
                let _ = self.next_tok();
                Ok(Some(Constant::Float { value, location: SrcSpan { start, end } }))
            },
            Some((start, Tok::Int { value }, end)) => {
                let _ = self.next_tok();
                Ok(Some(Constant::Int { value, location: SrcSpan { start, end } }))
            },
            Some((start, Tok::Tuple, _)) => {
                let _ = self.next_tok();
                Ok(Some(self.expect_const_tuple(start)?))
            },
            Some((start, Tok::Lsqb, _)) => {
                let _ = self.next_tok();
                Ok(Some(self.expect_const_list(start)?))
            },
            // Bitstring
            Some((start, Tok::LtLt, _)) => {
                let _ = self.next_tok();
                Ok(Some(self.expect_const_bit_string(start)?))
            },
            Some((start, Tok::UpName { name }, end)) => {
                let _ = self.next_tok();
                self.parse_const_record_finish(start, None, name, end)
            },
            Some((start, Tok::Name { name }, end)) => {
                let _ = self.next_tok();
                if self.expect_one(&Tok::Dot).is_ok() {
                    let (_, upname, end) = self.expect_upname()?;
                    self.parse_const_record_finish(start, Some(name), upname, end)
                } else {
                    parse_error(ParseErrorType::NotConstType, SrcSpan { start, end })
                }
            },
            // Helpful error for []
            Some((start, Tok::ListNil, end)) => parse_error(
                ParseErrorType::ListNilNotAllowed,
                SrcSpan { start, end },
            ),
            // Helpful error for fn
            Some((start, Tok::Fn, end)) => parse_error(
                ParseErrorType::NotConstType,
                SrcSpan { start, end },
            ),
            t0 => {
                self.put_back(t0);
                Ok(None)
            },
        }
    }

    // Starts after "tuple"
    fn expect_const_tuple(&mut self, start: usize) -> (result: Result<Constant, ParseError>)
        requires
            old(self).wf(),
        ensures
            did(
                *old(self),
                *final(self),
                result,
                const_tuple(old(self).toks(), old(self).cursor(), start),
            ),
        decreases old(self).ahead(), 3nat,
    {
        let _ = self.expect_one(&Tok::Lpar)?;
        let elements = self.parse_const_values()?;
        proof {
            constants_view_is_deep_view(elements);
        }
        let (_, end) = self.expect_one(&Tok::Rpar)?;
        Ok(Constant::Tuple { elements, location: SrcSpan { start, end } })
    }

    // Starts after "["
    fn expect_const_list(&mut self, start: usize) -> (result: Result<Constant, ParseError>)
        requires
            old(self).wf(),
        ensures
            did(
                *old(self),
                *final(self),
                result,
                const_list(old(self).toks(), old(self).cursor(), start),
            ),
        decreases old(self).ahead(), 3nat,
    {
        let elements = self.parse_const_values()?;
        proof {
            constants_view_is_deep_view(elements);
        }
        let (_, end) = self.expect_one(&Tok::Rsqb)?;
        Ok(Constant::List { elements, location: SrcSpan { start, end }, typ: () })
    }

    // Starts after "<<"
    fn expect_const_bit_string(&mut self, start: usize) -> (result: Result<Constant, ParseError>)
        requires
            old(self).wf(),
        ensures
            did(
                *old(self),
                *final(self),
                result,
                const_bit_string(old(self).toks(), old(self).cursor(), start),
            ),
        decreases old(self).ahead(), 3nat,
    {
        let ghost n = self.ahead();
        let parser = |p: &mut Parser| -> (found: Result<
            Option<BitStringSegment<Constant>>,
            ParseError,
        >)
            requires
                p.wf(),
                p.ahead() <= n,
            ensures
                did_find(*old(p), *final(p), found, const_segment(old(p).toks(), old(p).cursor())),
            { p.parse_const_segment() };
        let segments = self.series_of(
            &parser,
            Some(&Tok::Comma),
            Ghost(const_segment_from(self.toks(), self.cursor())),
        )?;
        proof {
            constant_segments_view_is_deep_view(segments);
        }
        let (_, end) = self.expect_one(&Tok::GtGt)?;
        Ok(Constant::BitString { location: SrcSpan { start, end }, segments })
    }

    // A segment of a bit string
    fn parse_const_segment(&mut self) -> (result: Result<
        Option<BitStringSegment<Constant>>,
        ParseError,
    >)
        requires
            old(self).wf(),
        ensures
            did_find(
                *old(self),
                *final(self),
                result,
                const_segment(old(self).toks(), old(self).cursor()),
            ),
        decreases old(self).ahead(), 1nat,
    {
        let ghost n = self.ahead();
        let value_parser = |p: &mut Parser| -> (found: Result<Option<Constant>, ParseError>)
            requires
                p.wf(),
                p.ahead() <= n,
            ensures
                did_find(*old(p), *final(p), found, const_value(old(p).toks(), old(p).cursor())),
            { p.parse_const_value() };
        let arg_parser = |p: &mut Parser| -> (found: Result<Constant, ParseError>)
            requires
                p.wf(),
            ensures
                did(*old(p), *final(p), found, const_int(old(p).toks(), old(p).cursor())),
            { p.expect_const_int() };
        self.parse_bit_string_segment(
            &value_parser,
            &arg_parser,
            &bit_string_const_int,
            Ghost(const_value_from(self.toks(), self.cursor())),
            Ghost(const_int_in(self.toks())),
            Ghost(const_number()),
        )
    }

    // Constants with commas between them
    fn parse_const_values(&mut self) -> (result: Result<Vec<Constant>, ParseError>)
        requires
            old(self).wf(),
        ensures
            did(
                *old(self),
                *final(self),
                result,
                const_values(old(self).toks(), old(self).cursor()),
            ),
        decreases old(self).ahead(), 2nat,
    {
        let ghost n = self.ahead();
        let parser = |p: &mut Parser| -> (found: Result<Option<Constant>, ParseError>)
            requires
                p.wf(),
                p.ahead() <= n,
            ensures
                did_find(*old(p), *final(p), found, const_value(old(p).toks(), old(p).cursor())),
            { p.parse_const_value() };
        self.series_of(
            &parser,
            Some(&Tok::Comma),
            Ghost(const_value_from(self.toks(), self.cursor())),
        )
    }

    // Parse the '( .. )' of a const type constructor
    fn parse_const_record_finish(
        &mut self,
        start: usize,
        module: Option<String>,
        name: String,
        end: usize,
    ) -> (result: Result<Option<Constant>, ParseError>)
        requires
            old(self).wf(),
        ensures
            did(
                *old(self),
                *final(self),
                result,
                const_record_finish(
                    old(self).toks(),
                    old(self).cursor(),
                    start,
                    module.deep_view(),
                    name@,
                    end,
                ),
            ),
        decreases old(self).ahead(), 3nat,
    {
        if self.maybe_one(&Tok::Lpar).is_some() {
            let ghost n = self.ahead();
            let parser = |p: &mut Parser| -> (found: Result<Option<CallArg<Constant>>, ParseError>)
                requires
                    p.wf(),
                    p.ahead() <= n,
                ensures
                    did_find(
                        *old(p),
                        *final(p),
                        found,
                        const_record_arg(old(p).toks(), old(p).cursor()),
                    ),
                { p.parse_const_record_arg() };
            let args = self.series_of(
                &parser,
                Some(&Tok::Comma),
                Ghost(const_record_arg_from(self.toks(), self.cursor())),
            )?;
            proof {
                constant_args_view_is_deep_view(args);
            }
            let (_, par_e) = self.expect_one(&Tok::Rpar)?;
            Ok(
                Some(
                    Constant::Record {
                        location: SrcSpan { start, end: par_e },
                        module,
                        name,
                        args,
                        tag: (),
                        typ: (),
                    },
                ),
            )
        } else {
            let args = vec![];
            proof {
                constant_args_view_is_deep_view(args);
                assert(args.deep_view() =~= Seq::empty());
            }
            Ok(
                Some(
                    Constant::Record {
                        location: SrcSpan { start, end },
                        module,
                        name,
                        args,
                        tag: (),
                        typ: (),
                    },
                ),
            )
        }
    }

    // examples:
    //  name: const
    //  const
    fn parse_const_record_arg(&mut self) -> (result: Result<Option<CallArg<Constant>>, ParseError>)
        requires
            old(self).wf(),
        ensures
            did_find(
                *old(self),
                *final(self),
                result,
                const_record_arg(old(self).toks(), old(self).cursor()),
            ),
        decreases old(self).ahead(), 1nat,
    {
        let name = match (self.take_tok(), self.second()) {
            // Named arg
            (Some((start, Tok::Name { name }, end)), Some(Tok::Colon)) => {
                let _ = self.next_tok();
                let _ = self.next_tok();
                Some((start, name, end))
            },
            // Unnamed arg
            (t0, _) => {
                self.put_back(t0);
                None
            },
        };

        if let Some(value) = self.parse_const_value()? {
            if let Some((start, label, _)) = name {
                Ok(
                    Some(
                        CallArg {
                            location: SrcSpan { start, end: value.location().end },
                            value,
                            label: Some(label),
                        },
                    ),
                )
            } else {
                Ok(Some(CallArg { location: value.location(), value, label: None }))
            }
        } else if name.is_some() {
            let expected = vec!["a constant value".to_string()];
            assert(expected.deep_view() =~= seq!["a constant value"@]);
            self.next_tok_unexpected(expected)
        } else {
            Ok(None)
        }
    }

    fn expect_const_int(&mut self) -> (result: Result<Constant, ParseError>)
        requires
            old(self).wf(),
        ensures
            did(
                *old(self),
                *final(self),
                result,
                const_int(old(self).toks(), old(self).cursor()),
            ),
    {
        match self.next_tok() {
            Some((start, Tok::Int { value }, end)) => Ok(
                Constant::Int { location: SrcSpan { start, end }, value },
            ),
            _ => {
                let expected = vec!["A variable name or an integer".to_string()];
                assert(expected.deep_view() =~= seq!["A variable name or an integer"@]);
                self.next_tok_unexpected(expected)
            },
        }
    }
}

/// A number as a constant.
fn bit_string_const_int(value: String, start: usize, end: usize) -> (constant: Constant)
    ensures
        constant.deep_view() == (const_number())(value@, start, end),
{
    Constant::Int { location: SrcSpan { start, end }, value }
}

} // verus!
