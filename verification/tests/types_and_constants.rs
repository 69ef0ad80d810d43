//! Types and constants.

use gleam_parser::ast::{
    BitStringSegment, BitStringSegmentOption, CallArg, Constant, SrcSpan, Statement, TypeAst,
};
use gleam_parser::error::{LexicalError, LexicalErrorType, ParseError, ParseErrorType};
use gleam_parser::parse_module;
use gleam_parser::stream::LexResult;
use gleam_parser::token::Tok;

/// The tokens of a text in which all tokens stand apart. A `?` is a lexical error.
fn tokens(src: &str) -> Vec<LexResult> {
    let mut all = vec![];
    let mut start = 0;
    for word in src.split(' ') {
        let end = start + word.len();
        if word == "?" {
            all.push(Err(LexicalError {
                error: LexicalErrorType::UnrecognizedToken { tok: '?' },
                location: start,
            }));
        } else if !word.is_empty() {
            all.push(Ok((start, token(word), end)));
        }
        start = end + 1;
    }
    all
}

fn token(word: &str) -> Tok {
    let fixed = vec![
        Tok::Lpar, Tok::Rpar, Tok::Lsqb, Tok::Rsqb, Tok::Lbrace, Tok::Rbrace, Tok::Plus,
        Tok::Minus, Tok::Star, Tok::Slash, Tok::Less, Tok::Greater, Tok::LessEqual,
        Tok::GreaterEqual, Tok::Percent, Tok::PlusDot, Tok::MinusDot, Tok::StarDot, Tok::SlashDot,
        Tok::LessDot, Tok::GreaterDot, Tok::LessEqualDot, Tok::GreaterEqualDot, Tok::Colon,
        Tok::Comma, Tok::Equal, Tok::EqualEqual, Tok::NotEqual, Tok::Vbar, Tok::VbarVbar,
        Tok::AmperAmper, Tok::LtLt, Tok::GtGt, Tok::Pipe, Tok::Dot, Tok::RArrow, Tok::DotDot,
        Tok::ListNil, Tok::CommentNormal, Tok::CommentDoc, Tok::CommentModule, Tok::EmptyLine,
        Tok::As, Tok::Assert, Tok::Case, Tok::Const, Tok::External, Tok::Fn, Tok::If, Tok::Import,
        Tok::Let, Tok::Opaque, Tok::Pub, Tok::Todo, Tok::Try, Tok::Tuple, Tok::Type,
    ];
    for tok in fixed {
        if tok.lexeme() == word {
            return tok;
        }
    }
    let text = word.to_string();
    let first = word.chars().next().unwrap();
    if first == '"' {
        Tok::String { value: text.replace('"', "") }
    } else if first.is_ascii_digit() && word.contains('.') {
        Tok::Float { value: text }
    } else if first.is_ascii_digit() {
        Tok::Int { value: text }
    } else if first == '_' {
        Tok::DiscardName { name: text }
    } else if first.is_uppercase() {
        Tok::UpName { name: text }
    } else {
        Tok::Name { name: text }
    }
}

fn span(start: usize, end: usize) -> SrcSpan {
    SrcSpan { start, end }
}

fn only(src: &str) -> Statement {
    let mut all = parse_module(tokens(src)).unwrap().0.statements;
    assert_eq!(all.len(), 1);
    all.pop().unwrap()
}

fn fails(src: &str, error: ParseErrorType, start: usize, end: usize) {
    assert_eq!(
        parse_module(tokens(src)).unwrap_err(),
        ParseError { error, location: span(start, end) }
    );
}

/// The type in `type A = type`, which starts at offset 9.
fn typ(src: &str) -> TypeAst {
    match only(&format!("type A = {}", src)) {
        Statement::TypeAlias { resolved_type, .. } => resolved_type,
        other => panic!("{:?}", other),
    }
}

fn type_fails(src: &str, error: ParseErrorType, start: usize, end: usize) {
    fails(&format!("type A = {}", src), error, start, end);
}

/// The constant in `const a = constant`, which starts at offset 10.
fn constant(src: &str) -> Constant {
    match only(&format!("const a = {}", src)) {
        Statement::ModuleConstant { value, .. } => *value,
        other => panic!("{:?}", other),
    }
}

fn constant_fails(src: &str, error: ParseErrorType, start: usize, end: usize) {
    fails(&format!("const a = {}", src), error, start, end);
}

fn expected(text: &str) -> ParseErrorType {
    ParseErrorType::UnexpectedToken { expected: vec![text.to_string()] }
}

fn constructor(name: &str, args: Vec<TypeAst>, start: usize, end: usize) -> TypeAst {
    TypeAst::Constructor { location: span(start, end), module: None, name: name.to_string(), args }
}

fn number(value: &str, start: usize, end: usize) -> Constant {
    Constant::Int { location: span(start, end), value: value.to_string() }
}

#[test]
fn type_names() {
    assert_eq!(typ("Int"), constructor("Int", vec![], 9, 12));
    assert_eq!(typ("a"), TypeAst::Var { location: span(9, 10), name: "a".to_string() });
    assert_eq!(typ("_a"), TypeAst::Hole { location: span(9, 11), name: "_a".to_string() });
    assert_eq!(
        typ("Box ( Int , Box ( a ) )"),
        constructor(
            "Box",
            vec![
                constructor("Int", vec![], 15, 18),
                constructor(
                    "Box",
                    vec![TypeAst::Var { location: span(27, 28), name: "a".to_string() }],
                    21,
                    30,
                ),
            ],
            9,
            32,
        )
    );
    assert_eq!(
        typ("m . Box ( )"),
        TypeAst::Constructor {
            location: span(9, 20),
            module: Some("m".to_string()),
            name: "Box".to_string(),
            args: vec![],
        }
    );
    type_fails("m . box", ParseErrorType::IncorrectUpName, 13, 16);
}

#[test]
fn a_tuple_type_has_the_location_of_its_keyword() {
    assert_eq!(
        typ("tuple ( Int , _ )"),
        TypeAst::Tuple {
            location: span(9, 14),
            elems: vec![
                constructor("Int", vec![], 17, 20),
                TypeAst::Hole { location: span(23, 24), name: "_".to_string() },
            ],
        }
    );
    type_fails("tuple Int", expected("\"(\""), 15, 18);
}

#[test]
fn a_function_type_reaches_up_to_its_result() {
    assert_eq!(
        typ("fn ( Int ) -> Int"),
        TypeAst::Fn {
            location: span(9, 26),
            args: vec![constructor("Int", vec![], 14, 17)],
            retrn: Box::new(constructor("Int", vec![], 23, 26)),
        }
    );
    type_fails("fn ( Int ) ->", ParseErrorType::ExpectedType, 20, 22);
    type_fails("fn ( Int , , Int ) -> Int", ParseErrorType::ExtraSeparator, 20, 21);
    type_fails("fn ( ) Int", expected("\"->\""), 16, 19);
}

#[test]
fn literals_and_collections_of_constants() {
    assert_eq!(constant("1"), number("1", 10, 11));
    assert_eq!(
        constant("1.5"),
        Constant::Float { location: span(10, 13), value: "1.5".to_string() }
    );
    assert_eq!(
        constant("\"a\""),
        Constant::String { location: span(10, 13), value: "a".to_string() }
    );
    assert_eq!(
        constant("tuple ( 1 , 2 )"),
        Constant::Tuple {
            location: span(10, 25),
            elements: vec![number("1", 18, 19), number("2", 22, 23)],
        }
    );
    assert_eq!(
        constant("[ 1 , 2 , ]"),
        Constant::List {
            location: span(10, 21),
            elements: vec![number("1", 12, 13), number("2", 16, 17)],
            typ: (),
        }
    );
    constant_fails("[ 1 , , 2 ]", ParseErrorType::ExtraSeparator, 16, 17);
    constant_fails("[ fn ]", ParseErrorType::NotConstType, 12, 14);
}

#[test]
fn constant_records() {
    let record = |module: Option<&str>, args: Vec<CallArg<Constant>>, end: usize| {
        Constant::Record {
            location: span(10, end),
            module: module.map(|name| name.to_string()),
            name: "A".to_string(),
            args,
            tag: (),
            typ: (),
        }
    };
    assert_eq!(constant("A"), record(None, vec![], 11));
    assert_eq!(constant("m . A"), record(Some("m"), vec![], 15));
    assert_eq!(
        constant("A ( 1 , b : 2 )"),
        record(
            None,
            vec![
                CallArg { label: None, location: span(14, 15), value: number("1", 14, 15) },
                CallArg {
                    label: Some("b".to_string()),
                    location: span(18, 23),
                    value: number("2", 22, 23),
                },
            ],
            25,
        )
    );
    constant_fails("A ( b : )", expected("a constant value"), 18, 19);
    constant_fails("m . a", ParseErrorType::IncorrectUpName, 14, 15);
    constant_fails("m 1", ParseErrorType::NotConstType, 10, 11);
}

#[test]
fn constant_bit_strings() {
    assert_eq!(
        constant("<< 1 : size ( 8 ) >>"),
        Constant::BitString {
            location: span(10, 30),
            segments: vec![BitStringSegment {
                location: span(13, 27),
                value: Box::new(number("1", 13, 14)),
                options: vec![BitStringSegmentOption::Size {
                    location: span(17, 27),
                    value: Box::new(number("8", 24, 25)),
                    short_form: false,
                }],
                typ: (),
            }],
        }
    );
    match constant("<< 1 : 8 >>") {
        Constant::BitString { segments, .. } => assert_eq!(
            segments[0].options,
            vec![BitStringSegmentOption::Size {
                location: span(17, 18),
                value: Box::new(number("8", 17, 18)),
                short_form: true,
            }]
        ),
        other => panic!("{:?}", other),
    }
    constant_fails("<< 1 : size ( n ) >>", expected("A variable name or an integer"), 26, 27);
}

#[test]
fn an_annotation_is_a_type() {
    let annotation = |src: &str| match only(&format!("const a : {} = 1", src)) {
        Statement::ModuleConstant { annotation, .. } => annotation,
        other => panic!("{:?}", other),
    };
    assert_eq!(annotation("Int"), Some(constructor("Int", vec![], 10, 13)));
    assert_eq!(
        annotation("L ( I )"),
        Some(constructor("L", vec![constructor("I", vec![], 14, 15)], 10, 17))
    );
    // The token that announces a type needs one
    fails("const a : = 1", ParseErrorType::ExpectedType, 8, 9);
    // Without it there is no annotation
    match only("const a = 1") {
        Statement::ModuleConstant { annotation, .. } => assert_eq!(annotation, None),
        other => panic!("{:?}", other),
    }
    // An error in the type is that of the annotation
    fails("const a : b = 1", ParseErrorType::NotConstType, 10, 11);
}
