//! Parsing of definitions at the top level of a module.

use crate::ast::{
    ExternalFnArg, RecordConstructor, RecordConstructorArg, SrcSpan, Statement, UnqualifiedImport,
};
use crate::error::{parse_error, ParseError, ParseErrorType};
use crate::grammar::statements::{
    constructor, constructor_in, custom_type, external_fn, external_fn_body, external_fn_param,
    external_fn_param_in, external_type, import, import_path, maybe_alias, module_const, statement,
    type_constructor_arg, type_constructor_arg_in, type_constructor_args, type_head, type_param,
    type_param_in, unqualified_imports, unqualified_in_braces,
};
use crate::model::Text;
use crate::parser::{behind, did, did_find, Parser};
use crate::token::Tok;
use vstd::prelude::*;

verus! {

impl Parser {
    pub(crate) fn parse_statement(&mut self) -> (result: Result<Option<Statement>, ParseError>)
        requires
            old(self).wf(),
        ensures
            did_find(
                *old(self),
                *final(self),
                result,
                statement(old(self).toks(), old(self).cursor()),
            ),
    {
        reveal(statement);
        match (self.take_tok(), self.second()) {
            // Imports
            (Some((_, Tok::Import, _)), _) => {
                let _ = self.next_tok();
                self.parse_import()
            },
            // Module Constants
            (Some((_, Tok::Const, _)), _) => {
                let _ = self.next_tok();
                self.parse_module_const(false)
            },
            (Some((_, Tok::Pub, _)), Some(Tok::Const)) => {
                let _ = self.next_tok();
                let _ = self.next_tok();
                self.parse_module_const(true)
            },
            // External Type
            (Some((start, Tok::External, _)), Some(Tok::Type)) => {
                let _ = self.next_tok();
                let _ = self.next_tok();
                self.parse_external_type(start, false)
            },
            // External Function
            (Some((start, Tok::External, _)), Some(Tok::Fn)) => {
                let _ = self.next_tok();
                let _ = self.next_tok();
                self.parse_external_fn(start, false)
            },
            // Pub External type or fn
            (Some((start, Tok::Pub, _)), Some(Tok::External)) => {
                let _ = self.next_tok();
                let _ = self.next_tok();
                match self.next_tok() {
                    Some((_, Tok::Type, _)) => self.parse_external_type(start, true),
                    Some((_, Tok::Fn, _)) => self.parse_external_fn(start, true),
                    _ => {
                        let expected = vec!["A type or function definition".to_string()];
                        assert(expected.deep_view() =~= seq!["A type or function definition"@]);
                        self.next_tok_unexpected(expected)
                    },
                }
            },
            // function
            (Some((start, Tok::Fn, _)), _) => {
                let _ = self.next_tok();
                self.parse_function(start, false, false)
            },
            (Some((start, Tok::Pub, _)), Some(Tok::Fn)) => {
                let _ = self.next_tok();
                let _ = self.next_tok();
                self.parse_function(start, true, false)
            },
            // Custom Types, and Type Aliases
            (Some((start, Tok::Type, _)), _) => {
                let _ = self.next_tok();
                self.parse_custom_type(start, false, false)
            },
            (Some((start, Tok::Pub, _)), Some(Tok::Opaque)) => {
                let _ = self.next_tok();
                let _ = self.next_tok();
                let _ = self.expect_one(&Tok::Type)?;
                self.parse_custom_type(start, true, true)
            },
            (Some((start, Tok::Pub, _)), Some(Tok::Type)) => {
                let _ = self.next_tok();
                let _ = self.next_tok();
                self.parse_custom_type(start, true, false)
            },
            (t0, _) => {
                self.put_back(t0);
                Ok(None)
            },
        }
    }

    // Starts after "fn"
    //
    // examples:
    //   external fn a(String) -> String = "x" "y"
    //   pub external fn a(name: String) -> String = "x" "y"
    fn parse_external_fn(&mut self, start: usize, public: bool) -> (result: Result<
        Option<Statement>,
        ParseError,
    >)
        requires
            old(self).wf(),
        ensures
            did(
                *old(self),
                *final(self),
                result,
                external_fn(old(self).toks(), old(self).cursor(), start, public),
            ),
    {
        reveal(external_fn);
        let (_, name, _) = self.expect_name()?;
        let _ = self.expect_one(&Tok::Lpar)?;
        let parser = |p: &mut Parser| -> (found: Result<Option<ExternalFnArg>, ParseError>)
            requires
                p.wf(),
            ensures
                did_find(
                    *old(p),
                    *final(p),
                    found,
                    external_fn_param(old(p).toks(), old(p).cursor()),
                ),
            { p.parse_external_fn_param() };
        let args = self.series_of(
            &parser,
            Some(&Tok::Comma),
            Ghost(external_fn_param_in(self.toks())),
        )?;
        let _ = self.expect_one(&Tok::Rpar)?;
        self.parse_external_fn_body(start, public, name, args)
    }

    // Starts after ")"
    fn parse_external_fn_body(
        &mut self,
        start: usize,
        public: bool,
        name: String,
        args: Vec<ExternalFnArg>,
    ) -> (result: Result<Option<Statement>, ParseError>)
        requires
            old(self).wf(),
        ensures
            did(
                *old(self),
                *final(self),
                result,
                external_fn_body(
                    old(self).toks(),
                    old(self).cursor(),
                    start,
                    public,
                    name@,
                    args.deep_view(),
                ),
            ),
    {
        reveal(external_fn_body);
        let (arr_s, arr_e) = self.expect_one(&Tok::RArrow)?;
        let return_annotation = self.parse_type(false)?;
        let _ = self.expect_one(&Tok::Equal)?;
        let (_, module, _) = self.expect_string()?;
        let (_, fun, end) = self.expect_string()?;

        if let Some(retrn) = return_annotation {
            Ok(
                Some(
                    Statement::ExternalFn {
                        doc: None,
                        location: SrcSpan { start, end },
                        public,
                        name,
                        args,
                        module,
                        fun,
                        retrn,
                        return_type: (),
                    },
                ),
            )
        } else {
            parse_error(ParseErrorType::ExpectedType, SrcSpan { start: arr_s, end: arr_e })
        }
    }

    // Parse a single external function definition param
    //
    // examples:
    //   A
    //   a: A
    fn parse_external_fn_param(&mut self) -> (result: Result<Option<ExternalFnArg>, ParseError>)
        requires
            old(self).wf(),
        ensures
            did_find(
                *old(self),
                *final(self),
                result,
                external_fn_param(old(self).toks(), old(self).cursor()),
            ),
    {
        let mut start: usize = 0;
        let mut end: usize = 0;
        let label = match (self.take_tok(), self.second()) {
            (Some((s, Tok::Name { name }, _)), Some(Tok::Colon)) => {
                let _ = self.next_tok();
                start = s;
                if let Some((_, _, e)) = self.next_tok() {
                    end = e;
                }
                Some(name)
            },
            (t0, _) => {
                self.put_back(t0);
                None
            },
        };
        match self.parse_type(false)? {
            None => {
                if label.is_some() {
                    parse_error(ParseErrorType::ExpectedType, SrcSpan { start: end, end })
                } else {
                    Ok(None)
                }
            },
            Some(annotation) => {
                let location = if label.is_some() {
                    SrcSpan { start, end: annotation.location().end }
                } else {
                    annotation.location()
                };
                Ok(Some(ExternalFnArg { location, label, annotation, typ: () }))
            },
        }
    }

    // Starts after "type"
    //
    // examples:
    //   external type A
    //   pub external type A(a, b, c)
    fn parse_external_type(&mut self, start: usize, public: bool) -> (result: Result<
        Option<Statement>,
        ParseError,
    >)
        requires
            old(self).wf(),
        ensures
            did(
                *old(self),
                *final(self),
                result,
                external_type(old(self).toks(), old(self).cursor(), start, public),
            ),
    {
        reveal(external_type);
        let (_, name, args, end) = self.expect_type_name()?;
        Ok(
            Some(
                Statement::ExternalType {
                    location: SrcSpan { start, end },
                    public,
                    name,
                    args,
                    doc: None,
                },
            ),
        )
    }

    // examples:
    //   type A { A }
    //   type A { A(String) }
    //   type A(a) { A(a: b) }
    //   type A(a) { A(String, a: b) }
    fn parse_custom_type(&mut self, start: usize, public: bool, opaque: bool) -> (result: Result<
        Option<Statement>,
        ParseError,
    >)
        requires
            old(self).wf(),
        ensures
            did(
                *old(self),
                *final(self),
                result,
                custom_type(old(self).toks(), old(self).cursor(), start, public, opaque),
            ),
    {
        reveal(custom_type);
        let (_, name, parameters, end) = self.expect_type_name()?;
        if self.maybe_one(&Tok::Lbrace).is_some() {
            // Custom Type
            let parser = |p: &mut Parser| -> (found: Result<Option<RecordConstructor>, ParseError>)
                requires
                    p.wf(),
                ensures
                    did_find(
                        *old(p),
                        *final(p),
                        found,
                        constructor(old(p).toks(), old(p).cursor()),
                    ),
                { p.parse_type_constructor() };
            // No separator
            let constructors = self.series_of(&parser, None, Ghost(constructor_in(self.toks())))?;
            let _ = self.expect_one(&Tok::Rbrace)?;
            if constructors.len() == 0 {
                parse_error(ParseErrorType::NoConstructors, SrcSpan { start, end })
            } else {
                Ok(
                    Some(
                        Statement::CustomType {
                            doc: None,
                            location: SrcSpan { start, end },
                            public,
                            opaque,
                            name,
                            parameters,
                            constructors,
                            typed_parameters: vec![],
                        },
                    ),
                )
            }
        } else if let Some((eq_s, eq_e)) = self.maybe_one(&Tok::Equal) {
            // Type Alias
            if opaque {
                parse_error(ParseErrorType::OpaqueTypeAlias, SrcSpan { start, end })
            } else if let Some(t) = self.parse_type(false)? {
                Ok(
                    Some(
                        Statement::TypeAlias {
                            doc: None,
                            location: SrcSpan { start, end: t.location().end },
                            public,
                            alias: name,
                            args: parameters,
                            resolved_type: t,
                            typ: (),
                        },
                    ),
                )
            } else {
                parse_error(ParseErrorType::ExpectedType, SrcSpan { start: eq_s, end: eq_e })
            }
        } else {
            // Started defining a custom type or type alias, didn't supply any {} or =
            parse_error(ParseErrorType::NoConstructors, SrcSpan { start, end })
        }
    }

    // examples:
    //   A
    //   A(String, a: b)
    fn parse_type_constructor(&mut self) -> (result: Result<Option<RecordConstructor>, ParseError>)
        requires
            old(self).wf(),
        ensures
            did_find(
                *old(self),
                *final(self),
                result,
                constructor(old(self).toks(), old(self).cursor()),
            ),
    {
        if let Some((c_s, c_n, c_e)) = self.maybe_upname() {
            let (args, args_e) = self.parse_type_constructor_args()?;
            let end = if args_e >= c_e {
                args_e
            } else {
                c_e
            };
            Ok(
                Some(
                    RecordConstructor {
                        location: SrcSpan { start: c_s, end },
                        name: c_n,
                        args,
                        documentation: None,
                    },
                ),
            )
        } else {
            Ok(None)
        }
    }

    // examples:
    //   A
    //   A(one, two)
    fn expect_type_name(&mut self) -> (result: Result<
        (usize, String, Vec<String>, usize),
        ParseError,
    >)
        requires
            old(self).wf(),
        ensures
            did(
                *old(self),
                *final(self),
                result,
                type_head(old(self).toks(), old(self).cursor()),
            ),
    {
        let (start, upname, end) = self.expect_upname()?;
        if self.maybe_one(&Tok::Lpar).is_some() {
            let parser = |p: &mut Parser| -> (found: Result<
                Option<(usize, String, usize)>,
                ParseError,
            >)
                requires
                    p.wf(),
                ensures
                    did_find(*old(p), *final(p), found, type_param(old(p).toks(), old(p).cursor())),
                { Ok(p.maybe_name()) };
            let args = self.series_of(
                &parser,
                Some(&Tok::Comma),
                Ghost(type_param_in(self.toks())),
            )?;
            let (_, par_e) = self.expect_one(&Tok::Rpar)?;
            Ok((start, upname, names_of(args), par_e))
        } else {
            let args: Vec<String> = vec![];
            assert(args.deep_view() =~= Seq::empty());
            Ok((start, upname, args, end))
        }
    }

    // examples:
    //   *no args*
    //   ()
    //   (a, b)
    fn parse_type_constructor_args(&mut self) -> (result: Result<
        (Vec<RecordConstructorArg>, usize),
        ParseError,
    >)
        requires
            old(self).wf(),
        ensures
            did(
                *old(self),
                *final(self),
                result,
                type_constructor_args(old(self).toks(), old(self).cursor()),
            ),
    {
        if self.maybe_one(&Tok::Lpar).is_some() {
            let parser = |p: &mut Parser| -> (found: Result<
                Option<RecordConstructorArg>,
                ParseError,
            >)
                requires
                    p.wf(),
                ensures
                    did_find(
                        *old(p),
                        *final(p),
                        found,
                        type_constructor_arg(old(p).toks(), old(p).cursor()),
                    ),
                { p.parse_type_constructor_arg() };
            let args = self.series_of(
                &parser,
                Some(&Tok::Comma),
                Ghost(type_constructor_arg_in(self.toks())),
            )?;
            let (_, end) = self.expect_one(&Tok::Rpar)?;
            Ok((args, end))
        } else {
            let args: Vec<RecordConstructorArg> = vec![];
            assert(args.deep_view() =~= Seq::empty());
            Ok((args, 0))
        }
    }

    // examples:
    //   a: A
    //   A
    fn parse_type_constructor_arg(&mut self) -> (result: Result<
        Option<RecordConstructorArg>,
        ParseError,
    >)
        requires
            old(self).wf(),
        ensures
            did_find(
                *old(self),
                *final(self),
                result,
                type_constructor_arg(old(self).toks(), old(self).cursor()),
            ),
    {
        match (self.take_tok(), self.second()) {
            (Some((start, Tok::Name { name }, _)), Some(Tok::Colon)) => {
                let _ = self.next_tok();
                let end = match self.next_tok() {
                    Some((_, _, end)) => end,
                    None => start,
                };
                match self.parse_type(false)? {
                    Some(type_ast) => Ok(
                        Some(
                            RecordConstructorArg {
                                label: Some(name),
                                ast: type_ast,
                                location: SrcSpan { start, end },
                                typ: (),
                            },
                        ),
                    ),
                    None => parse_error(ParseErrorType::ExpectedType, SrcSpan { start, end }),
                }
            },
            (t0, _) => {
                self.put_back(t0);
                match self.parse_type(false)? {
                    Some(type_ast) => {
                        let location = type_ast.location();
                        Ok(
                            Some(
                                RecordConstructorArg {
                                    label: None,
                                    ast: type_ast,
                                    location,
                                    typ: (),
                                },
                            ),
                        )
                    },
                    None => Ok(None),
                }
            },
        }
    }

    // examples:
    //   import a
    //   import a/b
    //   import a/b.{c}
    //   import a/b.{c as d} as e
    fn parse_import(&mut self) -> (result: Result<Option<Statement>, ParseError>)
        requires
            old(self).wf(),
        ensures
            did(
                *old(self),
                *final(self),
                result,
                import(old(self).toks(), old(self).cursor()),
            ),
    {
        reveal(import);
        // Gather module names
        let (start, module, end) = self.expect_import_path()?;

        // Gather imports
        let unqualified = if self.maybe_one(&Tok::Dot).is_some() {
            self.expect_unqualified_in_braces()?
        } else {
            let none: Vec<UnqualifiedImport> = vec![];
            assert(none.deep_view() =~= Seq::empty());
            none
        };

        // Parse as_name
        let as_name = self.parse_alias()?;

        Ok(
            Some(
                Statement::Import {
                    location: SrcSpan { start, end },
                    unqualified,
                    module,
                    as_name,
                },
            ),
        )
    }

    // examples:
    //   a
    //   a/b
    fn expect_import_path(&mut self) -> (result: Result<(usize, Vec<String>, usize), ParseError>)
        requires
            old(self).wf(),
        ensures
            did(
                *old(self),
                *final(self),
                result,
                import_path(old(self).toks(), old(self).cursor(), 0, Seq::empty()),
            ),
    {
        let mut start: usize = 0;
        let mut module: Vec<String> = vec![];
        let ghost t = self.toks();
        let ghost whole = import_path(t, self.cursor(), 0, Seq::empty());
        assert(module.deep_view() =~= Seq::empty());
        loop
            invariant
                behind(*old(self), *self),
                t == old(self).toks(),
                whole == import_path(t, self.cursor(), start, module.deep_view()),
                whole == import_path(t, old(self).cursor(), 0, Seq::empty()),
            decreases self.ahead(),
        {
            let ghost before = module.deep_view();
            let (s, name, end) = self.expect_name()?;
            if module.len() == 0 {
                start = s;
            }
            module.push(name);
            assert(module.deep_view() =~= before.push(name@));

            // Useful error for : import a/.{b}
            if let Some((s, _)) = self.maybe_one(&Tok::SlashDot) {
                return parse_error(
                    ParseErrorType::ExpectedName,
                    SrcSpan { start: s + 1, end: s + 1 },
                );
            }
            // done if there's no trailing slash

            if self.maybe_one(&Tok::Slash).is_none() {
                return Ok((start, module, end));
            }
        }
    }

    // { .. }
    fn expect_unqualified_in_braces(&mut self) -> (result: Result<
        Vec<UnqualifiedImport>,
        ParseError,
    >)
        requires
            old(self).wf(),
        ensures
            did(
                *old(self),
                *final(self),
                result,
                unqualified_in_braces(old(self).toks(), old(self).cursor()),
            ),
    {
        let _ = self.expect_one(&Tok::Lbrace)?;
        let imports = self.parse_unqualified_imports()?;
        let _ = self.expect_one(&Tok::Rbrace)?;
        Ok(imports)
    }

    // [Name (as Name)? | UpName (as Name)? ](, [Name (as Name)? | UpName (as Name)?])*,?
    fn parse_unqualified_imports(&mut self) -> (result: Result<Vec<UnqualifiedImport>, ParseError>)
        requires
            old(self).wf(),
        ensures
            did(
                *old(self),
                *final(self),
                result,
                unqualified_imports(old(self).toks(), old(self).cursor(), Seq::empty()),
            ),
    {
        let mut imports: Vec<UnqualifiedImport> = vec![];
        let ghost t = self.toks();
        let ghost whole = unqualified_imports(t, self.cursor(), Seq::empty());
        assert(imports.deep_view() =~= Seq::empty());
        loop
            invariant
                behind(*old(self), *self),
                t == old(self).toks(),
                whole == unqualified_imports(t, self.cursor(), imports.deep_view()),
                whole == unqualified_imports(t, old(self).cursor(), Seq::empty()),
            decreases self.ahead(),
        {
            let ghost before = imports.deep_view();
            // parse imports
            let name = match self.maybe_name() {
                Some(name) => Some(name),
                None => self.maybe_upname(),
            };
            match name {
                Some((start, name, end)) => {
                    let location = SrcSpan { start, end };
                    let as_name = self.parse_alias()?;
                    let import = UnqualifiedImport { name, location, as_name };
                    imports.push(import);
                    assert(imports.deep_view() =~= before.push(import.deep_view()));
                },
                None => {
                    return Ok(imports);
                },
            }
            // parse comma
            if self.maybe_one(&Tok::Comma).is_none() {
                return Ok(imports);
            }
        }
    }

    // as Name
    fn parse_alias(&mut self) -> (result: Result<Option<String>, ParseError>)
        requires
            old(self).wf(),
        ensures
            did(
                *old(self),
                *final(self),
                result,
                maybe_alias(old(self).toks(), old(self).cursor()),
            ),
    {
        if self.maybe_one(&Tok::As).is_some() {
            let (_, name, _) = self.expect_name()?;
            Ok(Some(name))
        } else {
            Ok(None)
        }
    }

    // examples:
    //   const a = 1
    //   const a:Int = 1
    //   pub const a:Int = 1
    fn parse_module_const(&mut self, public: bool) -> (result: Result<
        Option<Statement>,
        ParseError,
    >)
        requires
            old(self).wf(),
        ensures
            did(
                *old(self),
                *final(self),
                result,
                module_const(old(self).toks(), old(self).cursor(), public),
            ),
    {
        reveal(module_const);
        let (start, name, _) = self.expect_name()?;

        let annotation = self.parse_type_annotation(&Tok::Colon, true)?;

        let (eq_s, eq_e) = self.expect_one(&Tok::Equal)?;
        if let Some(value) = self.parse_const_value()? {
            Ok(
                Some(
                    Statement::ModuleConstant {
                        doc: None,
                        location: SrcSpan { start, end: 0 },
                        public,
                        name,
                        annotation,
                        value: Box::new(value),
                        typ: (),
                    },
                ),
            )
        } else {
            parse_error(ParseErrorType::NoValueAfterEqual, SrcSpan { start: eq_s, end: eq_e })
        }
    }
}

/// Names without their offsets.
fn names_of(args: Vec<(usize, String, usize)>) -> (names: Vec<String>)
    ensures
        names.deep_view() == args.deep_view().map_values(|n: (usize, Text, usize)| n.1),
{
    let mut names: Vec<String> = vec![];
    let ghost all = args.deep_view();
    for arg in iter: args.into_iter()
        invariant
            all == args.deep_view(),
            iter.seq() == args@,
            names@.len() == iter.index(),
            forall|i: int| 0 <= i < names@.len() ==> #[trigger] names@[i] == args@[i].1,
    {
        names.push(arg.1);
    }
    assert(names.deep_view() =~= all.map_values(|n: (usize, Text, usize)| n.1));
    names
}

} // verus!
