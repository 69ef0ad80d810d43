//! Modules: definitions, what stands beside them, and the order of errors.

use gleam_parser::ast::{
    Arg, ArgNames, Constant, ExternalFnArg, RecordConstructor, RecordConstructorArg, SrcSpan,
    Statement, TypeAst, UnqualifiedImport, UntypedExpr,
};
use gleam_parser::error::{LexicalError, LexicalErrorType, ParseError, ParseErrorType};
use gleam_parser::parse_module;
use gleam_parser::stream::LexResult;
use gleam_parser::token::Tok;

/// The tokens of a text in which all tokens stand apart. A `?` is a lexical error.
fn tokens(src: &str) -> Vec<LexResult> {
    let mut all = vec![];
    let mut start = 0;
    for word in src.split(' ') {
        let end = start + word.len();
        if word == "?" {
            all.push(Err(LexicalError {
                error: LexicalErrorType::UnrecognizedToken { tok: '?' },
                location: start,
            }));
        } else if !word.is_empty() {
            all.push(Ok((start, token(word), end)));
        }
        start = end + 1;
    }
    all
}

fn token(word: &str) -> Tok {
    let fixed = vec![
        Tok::Lpar, Tok::Rpar, Tok::Lsqb, Tok::Rsqb, Tok::Lbrace, Tok::Rbrace, Tok::Plus,
        Tok::Minus, Tok::Star, Tok::Slash, Tok::Less, Tok::Greater, Tok::LessEqual,
        Tok::GreaterEqual, Tok::Percent, Tok::PlusDot, Tok::MinusDot, Tok::StarDot, Tok::SlashDot,
        Tok::LessDot, Tok::GreaterDot, Tok::LessEqualDot, Tok::GreaterEqualDot, Tok::Colon,
        Tok::Comma, Tok::Equal, Tok::EqualEqual, Tok::NotEqual, Tok::Vbar, Tok::VbarVbar,
        Tok::AmperAmper, Tok::LtLt, Tok::GtGt, Tok::Pipe, Tok::Dot, Tok::RArrow, Tok::DotDot,
        Tok::ListNil, Tok::CommentNormal, Tok::CommentDoc, Tok::CommentModule, Tok::EmptyLine,
        Tok::As, Tok::Assert, Tok::Case, Tok::Const, Tok::External, Tok::Fn, Tok::If, Tok::Import,
        Tok::Let, Tok::Opaque, Tok::Pub, Tok::Todo, Tok::Try, Tok::Tuple, Tok::Type,
    ];
    for tok in fixed {
        if tok.lexeme() == word {
            return tok;
        }
    }
    let text = word.to_string();
    let first = word.chars().next().unwrap();
    if first == '"' {
        Tok::String { value: text.replace('"', "") }
    } else if first.is_ascii_digit() && word.contains('.') {
        Tok::Float { value: text }
    } else if first.is_ascii_digit() {
        Tok::Int { value: text }
    } else if first == '_' {
        Tok::DiscardName { name: text }
    } else if first.is_uppercase() {
        Tok::UpName { name: text }
    } else {
        Tok::Name { name: text }
    }
}

fn span(start: usize, end: usize) -> SrcSpan {
    SrcSpan { start, end }
}

fn statements(src: &str) -> Vec<Statement> {
    parse_module(tokens(src)).unwrap().0.statements
}

fn only(src: &str) -> Statement {
    let mut all = statements(src);
    assert_eq!(all.len(), 1);
    all.pop().unwrap()
}

fn error(src: &str) -> ParseError {
    parse_module(tokens(src)).unwrap_err()
}

fn fails(src: &str, expected: ParseErrorType, start: usize, end: usize) {
    assert_eq!(error(src), ParseError { error: expected, location: span(start, end) });
}

fn unexpected(src: &str, expected: &str, start: usize, end: usize) {
    let expected = vec![expected.to_string()];
    fails(src, ParseErrorType::UnexpectedToken { expected }, start, end);
}

fn named(name: &str, start: usize, end: usize) -> TypeAst {
    TypeAst::Constructor {
        location: span(start, end),
        module: None,
        name: name.to_string(),
        args: vec![],
    }
}

#[test]
fn an_empty_input_is_an_empty_module() {
    let (module, extra) = parse_module(vec![]).unwrap();
    assert_eq!(module.name, Vec::<String>::new());
    assert_eq!(module.documentation, Vec::<String>::new());
    assert_eq!(module.statements, vec![]);
    assert!(extra.comments.is_empty());
    assert!(extra.doc_comments.is_empty());
    assert!(extra.module_comments.is_empty());
    assert!(extra.empty_lines.is_empty());
}

#[test]
fn import_of_a_path_with_names_and_an_alias() {
    assert_eq!(
        only("import a / b . { c as d , E } as f"),
        Statement::Import {
            location: span(7, 12),
            module: vec!["a".to_string(), "b".to_string()],
            as_name: Some("f".to_string()),
            unqualified: vec![
                UnqualifiedImport {
                    location: span(17, 18),
                    name: "c".to_string(),
                    as_name: Some("d".to_string()),
                },
                UnqualifiedImport {
                    location: span(26, 27),
                    name: "E".to_string(),
                    as_name: None,
                },
            ],
        }
    );
}

#[test]
fn import_may_have_a_comma_behind_its_last_name() {
    match only("import a . { b , }") {
        Statement::Import { unqualified, .. } => assert_eq!(unqualified.len(), 1),
        other => panic!("{:?}", other),
    }
}

#[test]
fn import_errors() {
    fails("import", ParseErrorType::UnexpectedEOF, 0, 0);
    fails("import A", ParseErrorType::IncorrectName, 7, 8);
    fails("import _a", ParseErrorType::IncorrectName, 7, 9);
    fails("import pub", ParseErrorType::UnexpectedReservedWord, 7, 10);
    fails("import 1", ParseErrorType::ExpectedName, 7, 8);
    // The error is behind the slash of `/.`
    fails("import a /. { b }", ParseErrorType::ExpectedName, 10, 10);
    unexpected("import a . b", "\"{\"", 11, 12);
    unexpected("import a . { b c }", "\"}\"", 15, 16);
}

#[test]
fn a_module_constant_has_no_end() {
    assert_eq!(
        only("pub const a : Int = 1"),
        Statement::ModuleConstant {
            doc: None,
            location: span(10, 0),
            public: true,
            name: "a".to_string(),
            annotation: Some(named("Int", 14, 17)),
            value: Box::new(Constant::Int { location: span(20, 21), value: "1".to_string() }),
            typ: (),
        }
    );
    match only("const a = 1") {
        Statement::ModuleConstant { public, annotation, .. } => {
            assert!(!public);
            assert_eq!(annotation, None);
        }
        other => panic!("{:?}", other),
    }
}

#[test]
fn module_constant_errors() {
    fails("const a =", ParseErrorType::NoValueAfterEqual, 8, 9);
    fails("const a = fn", ParseErrorType::NotConstType, 10, 12);
    fails("const a = []", ParseErrorType::ListNilNotAllowed, 10, 12);
    fails("const a = b", ParseErrorType::NotConstType, 10, 11);
    fails("const a : fn = 1", ParseErrorType::NotConstType, 10, 12);
    fails("const a : b = 1", ParseErrorType::NotConstType, 10, 11);
    fails("const a : Box ( b ) = 1", ParseErrorType::NotConstType, 16, 17);
    fails("const a : = 1", ParseErrorType::ExpectedType, 8, 9);
}

#[test]
fn external_types_and_functions() {
    assert_eq!(
        only("pub external type A ( b , c )"),
        Statement::ExternalType {
            location: span(0, 29),
            public: true,
            name: "A".to_string(),
            args: vec!["b".to_string(), "c".to_string()],
            doc: None,
        }
    );
    assert_eq!(
        only("external fn f ( A , b : C ) -> D = \"m\" \"n\""),
        Statement::ExternalFn {
            location: span(0, 42),
            public: false,
            args: vec![
                ExternalFnArg {
                    location: span(16, 17),
                    label: None,
                    annotation: named("A", 16, 17),
                    typ: (),
                },
                ExternalFnArg {
                    location: span(20, 25),
                    label: Some("b".to_string()),
                    annotation: named("C", 24, 25),
                    typ: (),
                },
            ],
            name: "f".to_string(),
            retrn: named("D", 31, 32),
            return_type: (),
            module: "m".to_string(),
            fun: "n".to_string(),
            doc: None,
        }
    );
    match only("pub external fn f ( ) -> D = \"m\" \"n\"") {
        Statement::ExternalFn { public, args, .. } => {
            assert!(public);
            assert!(args.is_empty());
        }
        other => panic!("{:?}", other),
    }
    match only("external type A") {
        Statement::ExternalType { public, args, location, .. } => {
            assert!(!public);
            assert!(args.is_empty());
            assert_eq!(location, span(0, 15));
        }
        other => panic!("{:?}", other),
    }
}

#[test]
fn external_errors() {
    // The token behind the one that is neither `type` nor `fn`
    unexpected("pub external a b", "A type or function definition", 15, 16);
    fails("pub external a", ParseErrorType::UnexpectedEOF, 0, 0);
    fails(
        "external fn f ( ) -> = \"m\" \"n\"",
        ParseErrorType::ExpectedType,
        18,
        20,
    );
    fails("external fn f ( a : ) -> A = \"m\" \"n\"", ParseErrorType::ExpectedType, 19, 19);
    // A missing string is reported at the token behind
    unexpected("external fn f ( ) -> A = m \"n\"", "a string", 27, 30);
    fails("external type a", ParseErrorType::IncorrectUpName, 14, 15);
    fails("external type _a", ParseErrorType::IncorrectUpName, 14, 16);
    fails("external type 1", ParseErrorType::ExpectedUpName, 14, 15);
    fails("external type", ParseErrorType::UnexpectedEOF, 0, 0);
}

#[test]
fn custom_types() {
    assert_eq!(
        only("pub opaque type A ( b ) { C D ( Int , x : Float ) }"),
        Statement::CustomType {
            location: span(0, 23),
            name: "A".to_string(),
            parameters: vec!["b".to_string()],
            public: true,
            constructors: vec![
                RecordConstructor {
                    location: span(26, 27),
                    name: "C".to_string(),
                    args: vec![],
                    documentation: None,
                },
                RecordConstructor {
                    location: span(28, 49),
                    name: "D".to_string(),
                    args: vec![
                        RecordConstructorArg {
                            label: None,
                            ast: named("Int", 32, 35),
                            location: span(32, 35),
                            typ: (),
                        },
                        RecordConstructorArg {
                            label: Some("x".to_string()),
                            ast: named("Float", 42, 47),
                            location: span(38, 41),
                            typ: (),
                        },
                    ],
                    documentation: None,
                },
            ],
            doc: None,
            opaque: true,
            typed_parameters: vec![],
        }
    );
}

#[test]
fn type_aliases() {
    assert_eq!(
        only("type A = B"),
        Statement::TypeAlias {
            location: span(0, 10),
            alias: "A".to_string(),
            args: vec![],
            resolved_type: named("B", 9, 10),
            public: false,
            typ: (),
            doc: None,
        }
    );
}

#[test]
fn custom_type_errors() {
    fails("type A", ParseErrorType::NoConstructors, 0, 6);
    fails("type A { }", ParseErrorType::NoConstructors, 0, 6);
    fails("type A =", ParseErrorType::ExpectedType, 7, 8);
    fails("pub opaque type A = B", ParseErrorType::OpaqueTypeAlias, 0, 17);
    unexpected("pub opaque A", "\"type\"", 11, 12);
    fails("type A { B ( c : ) }", ParseErrorType::ExpectedType, 13, 16);
    fails("type A ( b , , c )", ParseErrorType::ExtraSeparator, 13, 14);
}

#[test]
fn functions() {
    assert_eq!(
        only("pub fn f ( a , b c : Int , d _ , _e ) -> Int { 1 }"),
        Statement::Fn {
            location: span(0, 44),
            end_location: 49,
            name: "f".to_string(),
            args: vec![
                Arg {
                    names: ArgNames::Named { name: "a".to_string() },
                    location: span(11, 12),
                    annotation: None,
                    typ: (),
                },
                Arg {
                    names: ArgNames::NamedLabelled {
                        name: "c".to_string(),
                        label: "b".to_string(),
                    },
                    location: span(15, 24),
                    annotation: Some(named("Int", 21, 24)),
                    typ: (),
                },
                Arg {
                    names: ArgNames::LabelledDiscard {
                        label: "d".to_string(),
                        name: "_".to_string(),
                    },
                    location: span(27, 30),
                    annotation: None,
                    typ: (),
                },
                Arg {
                    names: ArgNames::Discard { name: "_e".to_string() },
                    location: span(33, 35),
                    annotation: None,
                    typ: (),
                },
            ],
            body: UntypedExpr::Int { location: span(47, 48), value: "1".to_string() },
            public: true,
            return_annotation: Some(named("Int", 41, 44)),
            return_type: (),
            doc: None,
        }
    );
    // Without an annotation a function reaches up to its closing parenthesis
    match only("fn f ( ) { 1 }") {
        Statement::Fn { location, public, end_location, .. } => {
            assert_eq!(location, span(0, 8));
            assert_eq!(end_location, 13);
            assert!(!public);
        }
        other => panic!("{:?}", other),
    }
}

#[test]
fn function_errors() {
    unexpected("fn f ( ) { }", "The body of a function", 11, 12);
    unexpected("fn f { 1 }", "\"(\"", 5, 6);
    fails("fn f ( a : ) { 1 }", ParseErrorType::ExpectedType, 9, 10);
    fails("fn f ( ) -> { 1 }", ParseErrorType::ExpectedType, 9, 11);
    fails("fn f ( ) { 1", ParseErrorType::UnexpectedEOF, 0, 0);
    unexpected("fn f ( ) { 1 )", "\"}\"", 13, 14);
}

#[test]
fn definitions_follow_each_other() {
    let all = statements("import a const b = 1 type C { D } pub fn f ( ) { g }");
    assert_eq!(all.len(), 4);
    assert!(matches!(all[0], Statement::Import { .. }));
    assert!(matches!(all[1], Statement::ModuleConstant { public: false, .. }));
    assert!(matches!(all[2], Statement::CustomType { public: false, opaque: false, .. }));
    assert!(matches!(all[3], Statement::Fn { public: true, .. }));
}

#[test]
fn comments_and_blank_lines_are_gathered_in_order() {
    let src = "//// /// import // a EmptyLine // /// ////";
    let (module, extra) = parse_module(tokens(src)).unwrap();
    assert_eq!(module.statements.len(), 1);
    assert_eq!(extra.module_comments, vec![span(0, 4), span(38, 42)]);
    assert_eq!(extra.doc_comments, vec![span(5, 8), span(34, 37)]);
    assert_eq!(extra.comments, vec![span(16, 18), span(31, 33)]);
    assert_eq!(extra.empty_lines, vec![21]);
}

#[test]
fn comments_and_blank_lines_change_no_tree() {
    let plain = parse_module(vec![
        Ok((16, Tok::Import, 22)),
        Ok((30, Tok::Name { name: "a".to_string() }, 31)),
    ]);
    let spaced = parse_module(vec![
        Ok((0, Tok::CommentNormal, 9)),
        Ok((10, Tok::EmptyLine, 11)),
        Ok((16, Tok::Import, 22)),
        Ok((23, Tok::CommentDoc, 29)),
        Ok((30, Tok::Name { name: "a".to_string() }, 31)),
        Ok((32, Tok::CommentModule, 40)),
    ]);
    assert_eq!(plain.unwrap().0, spaced.unwrap().0);
}

#[test]
fn a_lexical_error_comes_before_a_syntax_error() {
    let lexical = |start: usize| ParseErrorType::LexError {
        error: LexicalError {
            error: LexicalErrorType::UnrecognizedToken { tok: '?' },
            location: start,
        },
    };
    fails("import A ?", lexical(9), 9, 9);
    fails("? ?", lexical(0), 0, 0);
    fails("import a ?", lexical(9), 9, 9);
    fails("import ? a", lexical(7), 7, 7);
    // The parser stops at the syntax error and does not get as far as the lexical one
    fails("import A a a ?", ParseErrorType::IncorrectName, 7, 8);
}

#[test]
fn a_token_that_is_left_over_is_an_error() {
    unexpected("import a 1", "An import, const, type, or function.", 9, 10);
    unexpected("pub", "An import, const, type, or function.", 0, 3);
    unexpected("external", "An import, const, type, or function.", 0, 8);
    unexpected("1", "An import, const, type, or function.", 0, 1);
    // A syntax error comes first
    fails("import A 1", ParseErrorType::IncorrectName, 7, 8);
}

#[test]
fn errors_point_into_the_source() {
    let all = vec![
        "import", "import A", "import a /. { b }", "const a = fn", "external fn f ( a : )",
        "type A", "type A { B ( c : ) }", "fn f ( ) { }", "fn f ( ) { let a = 1 }",
        "fn f ( ) { g ( _ , _ ) }", "fn f ( ) { a . 0x1 }", "import a 1", "import ? a",
        "fn f ( ) { case a { [ b , .. 1 ] -> c } }", "fn f ( ) { 1 + }",
    ];
    for src in all {
        let location = error(src).location;
        assert!(location.start <= location.end);
        assert!(location.end <= src.len());
    }
}

#[test]
fn nothing_is_read_where_nothing_is_found() {
    // What stands behind the last definition is reported as it is left
    unexpected("type A = B B", "An import, const, type, or function.", 11, 12);
    unexpected("import a . { } b", "An import, const, type, or function.", 15, 16);
    unexpected("fn f ( ) { 1 } }", "An import, const, type, or function.", 15, 16);
}
