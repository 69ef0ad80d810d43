//! Calls, numbers, operators and tokens by themselves.

use gleam_parser::ast::{BinOp, CallArg, SrcSpan, UntypedExpr};
use gleam_parser::error::ParseErrorType;
use gleam_parser::location::HasLocation;
use gleam_parser::number::parse_decimal;
use gleam_parser::operator::{precedence, tok_to_binop};
use gleam_parser::token::Tok;
use gleam_parser::{make_call, Parser, ParserArg};

fn var(name: &str, start: usize, end: usize) -> UntypedExpr {
    UntypedExpr::Var { location: SrcSpan { start, end }, name: name.to_string() }
}

fn arg(name: &str, start: usize, end: usize) -> ParserArg {
    ParserArg::Arg(CallArg {
        label: None,
        location: SrcSpan { start, end },
        value: var(name, start, end),
    })
}

fn hole(start: usize, end: usize) -> ParserArg {
    ParserArg::Hole { location: SrcSpan { start, end }, label: Some("l".to_string()) }
}

#[test]
fn a_call_without_holes_keeps_its_arguments() {
    let call = make_call(var("f", 1, 2), vec![arg("a", 3, 4), arg("b", 5, 6)], 1, 7).unwrap();
    match call {
        UntypedExpr::Call { location, fun, args } => {
            assert_eq!(location, SrcSpan { start: 1, end: 7 });
            assert_eq!(*fun, var("f", 1, 2));
            assert_eq!(args.len(), 2);
            assert_eq!(args[0].value, var("a", 3, 4));
            assert_eq!(args[1].value, var("b", 5, 6));
        }
        other => panic!("{:?}", other),
    }
}

#[test]
fn a_call_with_one_hole_is_a_capture() {
    let made = make_call(var("f", 1, 2), vec![arg("a", 3, 4), hole(5, 6)], 1, 7).unwrap();
    assert_eq!(made.location(), SrcSpan { start: 1, end: 7 });
    match made {
        UntypedExpr::Fn { is_capture, args, body, return_annotation, .. } => {
            assert!(is_capture);
            assert_eq!(args.len(), 1);
            assert_eq!(return_annotation, None);
            match *body {
                UntypedExpr::Call { args, .. } => {
                    assert_eq!(args[0].value, var("a", 3, 4));
                    assert_eq!(args[1].value, var("_capture", 5, 6));
                    assert_eq!(args[1].label, Some("l".to_string()));
                }
                other => panic!("{:?}", other),
            }
        }
        other => panic!("{:?}", other),
    }
}

#[test]
fn a_call_with_two_holes_is_an_error() {
    let error = make_call(var("f", 1, 2), vec![hole(3, 4), hole(5, 6)], 1, 7).unwrap_err();
    assert_eq!(error.error, ParseErrorType::TooManyArgHoles);
    assert_eq!(error.location, SrcSpan { start: 1, end: 7 });
}

#[test]
fn numbers() {
    assert_eq!(parse_decimal("0"), Some(0));
    assert_eq!(parse_decimal("0042"), Some(42));
    assert_eq!(parse_decimal("1_000"), Some(1000));
    assert_eq!(parse_decimal("_1_"), Some(1));
    assert_eq!(parse_decimal("+7"), Some(7));
    assert_eq!(parse_decimal("_+_7"), Some(7));
    assert_eq!(parse_decimal("18446744073709551615"), Some(u64::MAX));
    assert_eq!(parse_decimal("18446744073709551616"), None);
    assert_eq!(parse_decimal("99999999999999999999"), None);
    assert_eq!(parse_decimal(""), None);
    assert_eq!(parse_decimal("_"), None);
    assert_eq!(parse_decimal("+"), None);
    assert_eq!(parse_decimal("++1"), None);
    assert_eq!(parse_decimal("-1"), None);
    assert_eq!(parse_decimal("0x1F"), None);
    assert_eq!(parse_decimal("1 "), None);
}

#[test]
fn precedences() {
    assert_eq!(precedence(&Tok::VbarVbar), Some(1));
    assert_eq!(precedence(&Tok::AmperAmper), Some(2));
    assert_eq!(precedence(&Tok::EqualEqual), Some(3));
    assert_eq!(precedence(&Tok::NotEqual), Some(3));
    assert_eq!(precedence(&Tok::Less), Some(4));
    assert_eq!(precedence(&Tok::GreaterEqualDot), Some(4));
    assert_eq!(precedence(&Tok::Pipe), Some(5));
    assert_eq!(precedence(&Tok::Plus), Some(6));
    assert_eq!(precedence(&Tok::MinusDot), Some(6));
    assert_eq!(precedence(&Tok::Star), Some(7));
    assert_eq!(precedence(&Tok::Percent), Some(7));
    assert_eq!(precedence(&Tok::Comma), None);
    assert_eq!(Tok::Less.guard_precedence(), Some(4));
    assert_eq!(Tok::Plus.guard_precedence(), None);
    assert_eq!(Tok::Pipe.guard_precedence(), None);
    assert_eq!(tok_to_binop(&Tok::Percent), Some(BinOp::ModuloInt));
    assert_eq!(tok_to_binop(&Tok::Pipe), None);
}

#[test]
fn tokens_are_shown_between_quotes() {
    assert_eq!(Tok::RArrow.quoted(), "\"->\"");
    assert_eq!(Tok::Name { name: "a".to_string() }.quoted(), "\"a\"");
    assert_eq!(Tok::Type.lexeme(), "type");
}

#[test]
fn tokens_are_equal_by_kind_and_text() {
    assert!(Tok::Name { name: "a".to_string() } == Tok::Name { name: "a".to_string() });
    assert!(Tok::Name { name: "a".to_string() } != Tok::Name { name: "b".to_string() });
    assert!(Tok::Name { name: "a".to_string() } != Tok::UpName { name: "a".to_string() });
    assert!(Tok::Lpar == Tok::Lpar);
    assert!(Tok::Lpar != Tok::Rpar);
}

#[test]
fn a_parser_can_be_made_of_any_input() {
    let _ = Parser::new(vec![]);
    let _ = Parser::new(vec![Ok((0, Tok::Lpar, 1)), Ok((1, Tok::Rpar, 2))]);
}

#[test]
fn locations_of_compound_expressions() {
    let pair = UntypedExpr::Sequence {
        first: Box::new(var("a", 0, 1)),
        then: Box::new(var("b", 2, 3)),
    };
    assert_eq!(pair.location(), SrcSpan { start: 2, end: 3 });
}
