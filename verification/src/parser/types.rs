//! Parsing of types.

use crate::ast::{SrcSpan, TypeAst};
use crate::error::{parse_error, ParseError, ParseErrorType};
use crate::grammar::types::{fn_type, ty, ty_from, type_annotation, type_name_finish, types};
use crate::model::types_view_is_deep_view;
use crate::parser::{did, did_find, Parser};
use crate::token::Tok;
use vstd::prelude::*;

verus! {

impl Parser {
    // examples:
    //   :a
    //   :Int
    //   :Result(a, _)
    //   :Result(Result(a, e), tuple(_, String))
    pub(crate) fn parse_type_annotation(&mut self, start_tok: &Tok, for_const: bool) -> (result:
        Result<Option<TypeAst>, ParseError>)
        requires
            old(self).wf(),
        ensures
            did_find(
                *old(self),
                *final(self),
                result,
                type_annotation(old(self).toks(), old(self).cursor(), *start_tok, for_const),
            ),
    {
        if let Some((start, end)) = self.maybe_one(start_tok) {
            match self.parse_type(for_const) {
                Ok(None) => parse_error(ParseErrorType::ExpectedType, SrcSpan { start, end }),
                other => other,
            }
        } else {
            Ok(None)
        }
    }

    // Parse the type part of a type annotation, same as `parse_type_annotation` minus the ":"
    pub(crate) fn parse_type(&mut self, for_const: bool) -> (result: Result<
        Option<TypeAst>,
        ParseError,
    >)
        requires
            old(self).wf(),
        ensures
            did_find(
                *old(self),
                *final(self),
                result,
                ty(old(self).toks(), old(self).cursor(), for_const),
            ),
        decreases old(self).ahead(), 0nat,
    {
        match self.take_tok() {
            // Type hole
            Some((start, Tok::DiscardName { name }, end)) => {
                let _ = self.next_tok();
                Ok(Some(TypeAst::Hole { location: SrcSpan { start, end }, name }))
            },
            // Tuple
            Some((start, Tok::Tuple, end)) => {
                let _ = self.next_tok();
                let _ = self.expect_one(&Tok::Lpar)?;
                let elems = self.parse_types(for_const)?;
                proof {
                    types_view_is_deep_view(elems);
                }
                let _ = self.expect_one(&Tok::Rpar)?;
                Ok(Some(TypeAst::Tuple { location: SrcSpan { start, end }, elems }))
            },
            // Function
            Some((start, Tok::Fn, end)) => {
                let _ = self.next_tok();
                if for_const {
                    parse_error(ParseErrorType::NotConstType, SrcSpan { start, end })
                } else {
                    self.parse_fn_type(start)
                }
            },
            // Constructor function
            Some((start, Tok::UpName { name }, end)) => {
                let _ = self.next_tok();
                self.parse_type_name_finish(for_const, start, None, name, end)
            },
            // Constructor Module or type Variable
            Some((start, Tok::Name { name: mod_name }, end)) => {
                let _ = self.next_tok();
                if self.maybe_one(&Tok::Dot).is_some() {
                    let (_, upname, upname_e) = self.expect_upname()?;
                    self.parse_type_name_finish(for_const, start, Some(mod_name), upname, upname_e)
                } else if for_const {
                    parse_error(ParseErrorType::NotConstType, SrcSpan { start, end })
                } else {
                    Ok(Some(TypeAst::Var { location: SrcSpan { start, end }, name: mod_name }))
                }
            },
            t0 => {
                self.put_back(t0);
                Ok(None)
            },
        }
    }

    // Parse the rest of a function type, starts after "fn"
    fn parse_fn_type(&mut self, start: usize) -> (result: Result<Option<TypeAst>, ParseError>)
        requires
            old(self).wf(),
        ensures
            did(
                *old(self),
                *final(self),
                result,
                fn_type(old(self).toks(), old(self).cursor(), start),
            ),
        decreases old(self).ahead(), 3nat,
    {
        let _ = self.expect_one(&Tok::Lpar)?;
        let args = self.parse_types(false)?;
        proof {
            types_view_is_deep_view(args);
        }
        let _ = self.expect_one(&Tok::Rpar)?;
        let (arr_s, arr_e) = self.expect_one(&Tok::RArrow)?;
        if let Some(retrn) = self.parse_type(false)? {
            Ok(
                Some(
                    TypeAst::Fn {
                        location: SrcSpan { start, end: retrn.location().end },
                        retrn: Box::new(retrn),
                        args,
                    },
                ),
            )
        } else {
            parse_error(ParseErrorType::ExpectedType, SrcSpan { start: arr_s, end: arr_e })
        }
    }

    // Parse the '( ... )' of a type name
    fn parse_type_name_finish(
        &mut self,
        for_const: bool,
        start: usize,
        module: Option<String>,
        name: String,
        end: usize,
    ) -> (result: Result<Option<TypeAst>, ParseError>)
        requires
            old(self).wf(),
        ensures
            did(
                *old(self),
                *final(self),
                result,
                type_name_finish(
                    old(self).toks(),
                    old(self).cursor(),
                    for_const,
                    start,
                    module.deep_view(),
                    name@,
                    end,
                ),
            ),
        decreases old(self).ahead(), 3nat,
    {
        if self.maybe_one(&Tok::Lpar).is_some() {
            let args = self.parse_types(for_const)?;
            proof {
                types_view_is_deep_view(args);
            }
            let (_, par_e) = self.expect_one(&Tok::Rpar)?;
            Ok(
                Some(
                    TypeAst::Constructor {
                        location: SrcSpan { start, end: par_e },
                        module,
                        name,
                        args,
                    },
                ),
            )
        } else {
            let args = vec![];
            proof {
                types_view_is_deep_view(args);
                assert(args.deep_view() =~= Seq::empty());
            }
            Ok(
                Some(
                    TypeAst::Constructor {
                        location: SrcSpan { start, end },
                        module,
                        name,
                        args,
                    },
                ),
            )
        }
    }

    // For parsing a comma separated "list" of types, for tuple, constructor, and function
    fn parse_types(&mut self, for_const: bool) -> (result: Result<Vec<TypeAst>, ParseError>)
        requires
            old(self).wf(),
        ensures
            did(
                *old(self),
                *final(self),
                result,
                types(old(self).toks(), old(self).cursor(), for_const),
            ),
        decreases old(self).ahead(), 2nat,
    {
        let ghost n = self.ahead();
        let parser = |p: &mut Parser| -> (found: Result<Option<TypeAst>, ParseError>)
            requires
                p.wf(),
                p.ahead() <= n,
            ensures
                did_find(*old(p), *final(p), found, ty(old(p).toks(), old(p).cursor(), for_const)),
            { p.parse_type(for_const) };
        self.series_of(
            &parser,
            Some(&Tok::Comma),
            Ghost(ty_from(self.toks(), self.cursor(), for_const)),
        )
    }
}

} // verus!
