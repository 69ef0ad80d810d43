//! Parsing of functions and of the arguments of calls.

use crate::ast::{Arg, ArgNames, CallArg, SrcSpan, Statement, TypeAst};
use crate::call::ParserArg;
use crate::error::ParseError;
use crate::grammar::exprs::{
    fn_arg, fn_arg_from, fn_args, fn_head, fn_param, fn_param_in, function, param_names,
};
use crate::location::HasLocation;
use crate::parser::{arrived, did, did_find, Parser};
use crate::token::Tok;
use vstd::prelude::*;

verus! {

impl Parser {
    // Starts after "fn"
    //
    // examples:
    //   fn a(name: String) -> String { .. }
    //   pub fn a(name name: String) -> String { .. }
    pub(crate) fn parse_function(&mut self, start: usize, public: bool, is_anon: bool) -> (result:
        Result<Option<Statement>, ParseError>)
        requires
            old(self).wf(),
        ensures
            did_find(
                *old(self),
                *final(self),
                result,
                function(old(self).toks(), old(self).cursor(), start, public, is_anon),
            ),
        decreases old(self).ahead(), 7nat,
    {
        let name = if is_anon {
            String::new()
        } else {
            self.expect_name()?.1
        };
        let (args, rpar_e, return_annotation) = self.expect_fn_head()?;
        if let Some((body, _)) = self.parse_expression_seq()? {
            let (_, rbr_e) = self.expect_one(&Tok::Rbrace)?;
            let end = match &return_annotation {
                Some(annotation) => annotation.location().end,
                None => if is_anon {
                    rbr_e
                } else {
                    rpar_e
                },
            };
            Ok(
                Some(
                    Statement::Fn {
                        doc: None,
                        location: SrcSpan { start, end },
                        end_location: rbr_e - 1,
                        public,
                        name,
                        args,
                        body,
                        return_type: (),
                        return_annotation,
                    },
                ),
            )
        } else {
            let expected = vec!["The body of a function".to_string()];
            assert(expected.deep_view() =~= seq!["The body of a function"@]);
            self.next_tok_unexpected(expected)
        }
    }

    // From the parameters up to the "{" of the body
    fn expect_fn_head(&mut self) -> (result: Result<
        (Vec<Arg>, usize, Option<TypeAst>),
        ParseError,
    >)
        requires
            old(self).wf(),
        ensures
            did(
                *old(self),
                *final(self),
                result,
                fn_head(old(self).toks(), old(self).cursor()),
            ),
            result is Ok ==> old(self).cursor().at < final(self).cursor().at,
    {
        reveal(fn_head);
        let _ = self.expect_one(&Tok::Lpar)?;
        let parser = |p: &mut Parser| -> (found: Result<Option<Arg>, ParseError>)
            requires
                p.wf(),
            ensures
                did_find(*old(p), *final(p), found, fn_param(old(p).toks(), old(p).cursor())),
            { p.parse_fn_param() };
        let args = self.series_of(&parser, Some(&Tok::Comma), Ghost(fn_param_in(self.toks())))?;
        let (_, rpar_e) = self.expect_one(&Tok::Rpar)?;
        let return_annotation = self.parse_type_annotation(&Tok::RArrow, false)?;
        let _ = self.expect_one(&Tok::Lbrace)?;
        Ok((args, rpar_e, return_annotation))
    }

    // Parse a single function definition param
    //
    // examples:
    //   _
    //   a
    //   a a
    //   a _
    //   a _:A
    //   a a:A
    fn parse_fn_param(&mut self) -> (result: Result<Option<Arg>, ParseError>)
        requires
            old(self).wf(),
        ensures
            did_find(
                *old(self),
                *final(self),
                result,
                fn_param(old(self).toks(), old(self).cursor()),
            ),
    {
        if let Some((start, names, names_end)) = self.maybe_param_names() {
            let annotation = self.parse_type_annotation(&Tok::Colon, false)?;
            let end = match &annotation {
                Some(a) => a.location().end,
                None => names_end,
            };
            Ok(Some(Arg { location: SrcSpan { start, end }, typ: (), names, annotation }))
        } else {
            Ok(None)
        }
    }

    // The label and the name of a param
    fn maybe_param_names(&mut self) -> (names: Option<(usize, ArgNames, usize)>)
        requires
            old(self).wf(),
        ensures
            match param_names(old(self).toks(), old(self).cursor()) {
                Some((start, names_view, end, to)) => {
                    &&& names.deep_view() == Some((start, names_view, end))
                    &&& arrived(*old(self), *final(self), to)
                    &&& old(self).cursor().at < to.at
                },
                None => names is None && arrived(*old(self), *final(self), old(self).cursor()),
            },
    {
        match self.take_tok() {
            Some((start, Tok::Name { name: label }, end)) => {
                let _ = self.next_tok();
                match self.take_tok() {
                    // labeled discard
                    Some((_, Tok::DiscardName { name }, end)) => {
                        let _ = self.next_tok();
                        Some((start, ArgNames::LabelledDiscard { name, label }, end))
                    },
                    // labeled name
                    Some((_, Tok::Name { name }, end)) => {
                        let _ = self.next_tok();
                        Some((start, ArgNames::NamedLabelled { name, label }, end))
                    },
                    // name
                    t1 => {
                        self.put_back(t1);
                        Some((start, ArgNames::Named { name: label }, end))
                    },
                }
            },
            // discard
            Some((start, Tok::DiscardName { name }, end)) => {
                let _ = self.next_tok();
                Some((start, ArgNames::Discard { name }, end))
            },
            t0 => {
                self.put_back(t0);
                None
            },
        }
    }

    // Parse function call arguments, no parens
    //
    // examples:
    //   _
    //   expr, expr
    //   a: _, expr
    //   a: expr, _, b: _
    pub(crate) fn parse_fn_args(&mut self) -> (result: Result<Vec<ParserArg>, ParseError>)
        requires
            old(self).wf(),
        ensures
            did(
                *old(self),
                *final(self),
                result,
                fn_args(old(self).toks(), old(self).cursor()),
            ),
        decreases old(self).ahead(), 6nat,
    {
        let ghost n = self.ahead();
        let parser = |p: &mut Parser| -> (found: Result<Option<ParserArg>, ParseError>)
            requires
                p.wf(),
                p.ahead() <= n,
            ensures
                did_find(*old(p), *final(p), found, fn_arg(old(p).toks(), old(p).cursor())),
            { p.parse_fn_arg() };
        self.series_of(
            &parser,
            Some(&Tok::Comma),
            Ghost(fn_arg_from(self.toks(), self.cursor())),
        )
    }

    // Parse a single function call arg
    //
    // examples:
    //   _
    //   expr
    //   a: _
    //   a: expr
    fn parse_fn_arg(&mut self) -> (result: Result<Option<ParserArg>, ParseError>)
        requires
            old(self).wf(),
        ensures
            did_find(
                *old(self),
                *final(self),
                result,
                fn_arg(old(self).toks(), old(self).cursor()),
            ),
        decreases old(self).ahead(), 4nat,
    {
        let mut start: usize = 0;
        let label = match (self.take_tok(), self.second()) {
            (Some((s, Tok::Name { name }, _)), Some(Tok::Colon)) => {
                let _ = self.next_tok();
                let _ = self.next_tok();
                start = s;
                Some(name)
            },
            (t0, _) => {
                self.put_back(t0);
                None
            },
        };

        if let Some(value) = self.parse_expression()? {
            let mut location = value.location();
            if label.is_some() {
                location = SrcSpan { start, end: location.end };
            }
            Ok(Some(ParserArg::Arg(CallArg { label, location, value })))
        } else if let Some((start, _, end)) = self.maybe_discard_name() {
            Ok(Some(ParserArg::Hole { location: SrcSpan { start, end }, label }))
        } else {
            Ok(None)
        }
    }
}

} // verus!
