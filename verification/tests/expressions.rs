//! Expressions and sequences of expressions.

use gleam_parser::ast::{
    Arg, ArgNames, BinOp, BindingKind, BitStringSegment, BitStringSegmentOption, CallArg, Pattern,
    RecordUpdateSpread, SrcSpan, TypeAst, UntypedExpr, UntypedRecordUpdateArg,
};
use gleam_parser::error::{LexicalError, LexicalErrorType, ParseError, ParseErrorType};
use gleam_parser::parse_expression_sequence;
use gleam_parser::stream::LexResult;
use gleam_parser::token::Tok;

/// The tokens of a text in which all tokens stand apart. A `?` is a lexical error.
fn tokens(src: &str) -> Vec<LexResult> {
    let mut all = vec![];
    let mut start = 0;
    for word in src.split(' ') {
        let end = start + word.len();
        if word == "?" {
            all.push(Err(LexicalError {
                error: LexicalErrorType::UnrecognizedToken { tok: '?' },
                location: start,
            }));
        } else if !word.is_empty() {
            all.push(Ok((start, token(word), end)));
        }
        start = end + 1;
    }
    all
}

fn token(word: &str) -> Tok {
    let fixed = vec![
        Tok::Lpar, Tok::Rpar, Tok::Lsqb, Tok::Rsqb, Tok::Lbrace, Tok::Rbrace, Tok::Plus,
        Tok::Minus, Tok::Star, Tok::Slash, Tok::Less, Tok::Greater, Tok::LessEqual,
        Tok::GreaterEqual, Tok::Percent, Tok::PlusDot, Tok::MinusDot, Tok::StarDot, Tok::SlashDot,
        Tok::LessDot, Tok::GreaterDot, Tok::LessEqualDot, Tok::GreaterEqualDot, Tok::Colon,
        Tok::Comma, Tok::Equal, Tok::EqualEqual, Tok::NotEqual, Tok::Vbar, Tok::VbarVbar,
        Tok::AmperAmper, Tok::LtLt, Tok::GtGt, Tok::Pipe, Tok::Dot, Tok::RArrow, Tok::DotDot,
        Tok::ListNil, Tok::CommentNormal, Tok::CommentDoc, Tok::CommentModule, Tok::EmptyLine,
        Tok::As, Tok::Assert, Tok::Case, Tok::Const, Tok::External, Tok::Fn, Tok::If, Tok::Import,
        Tok::Let, Tok::Opaque, Tok::Pub, Tok::Todo, Tok::Try, Tok::Tuple, Tok::Type,
    ];
    for tok in fixed {
        if tok.lexeme() == word {
            return tok;
        }
    }
    let text = word.to_string();
    let first = word.chars().next().unwrap();
    if first == '"' {
        Tok::String { value: text.replace('"', "") }
    } else if first.is_ascii_digit() && word.contains('.') {
        Tok::Float { value: text }
    } else if first.is_ascii_digit() {
        Tok::Int { value: text }
    } else if first == '_' {
        Tok::DiscardName { name: text }
    } else if first.is_uppercase() {
        Tok::UpName { name: text }
    } else {
        Tok::Name { name: text }
    }
}

fn span(start: usize, end: usize) -> SrcSpan {
    SrcSpan { start, end }
}

fn expr(src: &str) -> UntypedExpr {
    parse_expression_sequence(tokens(src)).unwrap()
}

fn fails(src: &str, error: ParseErrorType, start: usize, end: usize) {
    assert_eq!(
        parse_expression_sequence(tokens(src)).unwrap_err(),
        ParseError { error, location: span(start, end) }
    );
}

fn unexpected(src: &str, expected: &str, start: usize, end: usize) {
    let expected = vec![expected.to_string()];
    fails(src, ParseErrorType::UnexpectedToken { expected }, start, end);
}

fn number(value: &str, start: usize, end: usize) -> UntypedExpr {
    UntypedExpr::Int { location: span(start, end), value: value.to_string() }
}

fn var(name: &str, start: usize, end: usize) -> UntypedExpr {
    UntypedExpr::Var { location: span(start, end), name: name.to_string() }
}

fn binop(
    name: BinOp,
    left: UntypedExpr,
    right: UntypedExpr,
    start: usize,
    end: usize,
) -> UntypedExpr {
    UntypedExpr::BinOp {
        location: span(start, end),
        name,
        left: Box::new(left),
        right: Box::new(right),
    }
}

#[test]
fn literals_and_names() {
    assert_eq!(expr("1"), number("1", 0, 1));
    assert_eq!(
        expr("1.5"),
        UntypedExpr::Float { location: span(0, 3), value: "1.5".to_string() }
    );
    assert_eq!(
        expr("\"hi\""),
        UntypedExpr::String { location: span(0, 4), value: "hi".to_string() }
    );
    assert_eq!(expr("[]"), UntypedExpr::ListNil { location: span(0, 2) });
    assert_eq!(expr("abc"), var("abc", 0, 3));
    assert_eq!(expr("Abc"), var("Abc", 0, 3));
}

#[test]
fn nothing_is_no_expression() {
    fails("", ParseErrorType::ExpectedExpr, 0, 0);
    unexpected(")", "An import, const, type, or function.", 0, 1);
}

#[test]
fn operators_of_one_precedence_group_to_the_left() {
    assert_eq!(
        expr("1 - 2 + 3"),
        binop(
            BinOp::AddInt,
            binop(BinOp::SubInt, number("1", 0, 1), number("2", 4, 5), 0, 5),
            number("3", 8, 9),
            0,
            9,
        )
    );
}

#[test]
fn operators_of_a_higher_precedence_bind_tighter() {
    assert_eq!(
        expr("1 + 2 * 3"),
        binop(
            BinOp::AddInt,
            number("1", 0, 1),
            binop(BinOp::MultInt, number("2", 4, 5), number("3", 8, 9), 4, 9),
            0,
            9,
        )
    );
    assert_eq!(
        expr("1 * 2 + 3"),
        binop(
            BinOp::AddInt,
            binop(BinOp::MultInt, number("1", 0, 1), number("2", 4, 5), 0, 5),
            number("3", 8, 9),
            0,
            9,
        )
    );
    // || below && below == below < below + below *
    assert_eq!(
        expr("a || b && c == d < e + f * g"),
        binop(
            BinOp::Or,
            var("a", 0, 1),
            binop(
                BinOp::And,
                var("b", 5, 6),
                binop(
                    BinOp::Eq,
                    var("c", 10, 11),
                    binop(
                        BinOp::LtInt,
                        var("d", 15, 16),
                        binop(
                            BinOp::AddInt,
                            var("e", 19, 20),
                            binop(BinOp::MultInt, var("f", 23, 24), var("g", 27, 28), 23, 28),
                            19,
                            28,
                        ),
                        15,
                        28,
                    ),
                    10,
                    28,
                ),
                5,
                28,
            ),
            0,
            28,
        )
    );
}

#[test]
fn each_operator_has_its_name() {
    let all = vec![
        ("||", BinOp::Or),
        ("&&", BinOp::And),
        ("==", BinOp::Eq),
        ("!=", BinOp::NotEq),
        ("<", BinOp::LtInt),
        ("<=", BinOp::LtEqInt),
        (">", BinOp::GtInt),
        (">=", BinOp::GtEqInt),
        ("<.", BinOp::LtFloat),
        ("<=.", BinOp::LtEqFloat),
        (">.", BinOp::GtFloat),
        (">=.", BinOp::GtEqFloat),
        ("+", BinOp::AddInt),
        ("-", BinOp::SubInt),
        ("+.", BinOp::AddFloat),
        ("-.", BinOp::SubFloat),
        ("%", BinOp::ModuloInt),
        ("*", BinOp::MultInt),
        ("*.", BinOp::MultFloat),
        ("/", BinOp::DivInt),
        ("/.", BinOp::DivFloat),
    ];
    for (text, op) in all {
        match expr(&format!("a {} b", text)) {
            UntypedExpr::BinOp { name, .. } => assert_eq!(name, op),
            other => panic!("{:?}", other),
        }
    }
}

#[test]
fn a_pipe_starts_at_its_operator() {
    assert_eq!(
        expr("a |> b |> c"),
        UntypedExpr::Pipe {
            location: span(7, 11),
            left: Box::new(UntypedExpr::Pipe {
                location: span(2, 6),
                left: Box::new(var("a", 0, 1)),
                right: Box::new(var("b", 5, 6)),
            }),
            right: Box::new(var("c", 10, 11)),
        }
    );
    // A pipe binds tighter than an order and looser than arithmetic
    assert!(matches!(
        expr("a < b |> c"),
        UntypedExpr::BinOp { name: BinOp::LtInt, .. }
    ));
    assert!(matches!(expr("a + b |> c"), UntypedExpr::Pipe { .. }));
    // What stands before a pipe is located by the pipe's right side
    match expr("a |> b == c") {
        UntypedExpr::BinOp { location, .. } => assert_eq!(location, span(5, 11)),
        other => panic!("{:?}", other),
    }
}

#[test]
fn an_operator_needs_a_right_operand() {
    fails("1 +", ParseErrorType::OpNakedRight, 2, 3);
    fails("1 + 2 *", ParseErrorType::OpNakedRight, 6, 7);
    fails("1 + )", ParseErrorType::OpNakedRight, 2, 3);
}

#[test]
fn a_parenthesis_starts_no_expression() {
    fails("( 1 )", ParseErrorType::ExprLparStart, 0, 0);
    fails("1 + ( 2 )", ParseErrorType::ExprLparStart, 4, 4);
}

#[test]
fn todos_may_have_a_label() {
    assert_eq!(expr("todo"), UntypedExpr::Todo { location: span(0, 4), label: None });
    assert_eq!(
        expr("todo ( \"later\" )"),
        UntypedExpr::Todo { location: span(0, 16), label: Some("later".to_string()) }
    );
    unexpected("todo ( later )", "a string", 13, 14);
    unexpected("todo ( \"later\" 1", "\")\"", 15, 16);
}

#[test]
fn tuples_and_their_elements() {
    assert_eq!(
        expr("tuple ( 1 , a , )"),
        UntypedExpr::Tuple { location: span(0, 17), elems: vec![number("1", 8, 9), var("a", 12, 13)] }
    );
    assert_eq!(
        expr("a . 1_0"),
        UntypedExpr::TupleIndex {
            location: span(0, 7),
            index: 10,
            tuple: Box::new(var("a", 0, 1)),
        }
    );
    fails("a . 99999999999999999999", ParseErrorType::InvalidTupleAccess, 0, 24);
    fails("a . 0x1", ParseErrorType::InvalidTupleAccess, 0, 7);
    fails("tuple ( 1 , , 2 )", ParseErrorType::ExtraSeparator, 12, 13);
    unexpected("tuple 1", "\"(\"", 6, 7);
}

#[test]
fn lists_have_the_location_of_their_tail() {
    let cons = |head: UntypedExpr, tail: UntypedExpr, location: SrcSpan| UntypedExpr::ListCons {
        location,
        head: Box::new(head),
        tail: Box::new(tail),
    };
    assert_eq!(
        expr("[ 1 , 2 ]"),
        cons(
            number("1", 2, 3),
            cons(
                number("2", 6, 7),
                UntypedExpr::ListNil { location: span(0, 9) },
                span(0, 9),
            ),
            span(0, 9),
        )
    );
    assert_eq!(
        expr("[ 1 , .. rest ]"),
        cons(number("1", 2, 3), var("rest", 9, 13), span(9, 13))
    );
    // Two dots without a tail
    assert_eq!(
        expr("[ 1 , .. ]"),
        cons(number("1", 2, 3), UntypedExpr::ListNil { location: span(0, 10) }, span(0, 10))
    );
    assert_eq!(expr("[ ]"), UntypedExpr::ListNil { location: span(0, 3) });
    unexpected("[ 1 2 ]", "\"]\"", 4, 5);
}

#[test]
fn bit_strings() {
    assert_eq!(
        expr("<< 1 : 8 , a : size ( 4 ) - unit ( b ) - utf8 >>"),
        UntypedExpr::BitString {
            location: span(0, 48),
            segments: vec![
                BitStringSegment {
                    location: span(3, 8),
                    value: Box::new(number("1", 3, 4)),
                    options: vec![BitStringSegmentOption::Size {
                        location: span(7, 8),
                        value: Box::new(number("8", 7, 8)),
                        short_form: true,
                    }],
                    typ: (),
                },
                BitStringSegment {
                    location: span(11, 45),
                    value: Box::new(var("a", 11, 12)),
                    options: vec![
                        BitStringSegmentOption::Size {
                            location: span(15, 25),
                            value: Box::new(number("4", 22, 23)),
                            short_form: false,
                        },
                        BitStringSegmentOption::Unit {
                            location: span(28, 38),
                            value: Box::new(var("b", 35, 36)),
                            short_form: false,
                        },
                        BitStringSegmentOption::UTF8 { location: span(41, 45) },
                    ],
                    typ: (),
                },
            ],
        }
    );
    assert_eq!(
        expr("<< >>"),
        UntypedExpr::BitString { location: span(0, 5), segments: vec![] }
    );
}

#[test]
fn options_of_bit_string_segments() {
    let at = span(7, 10);
    let all = vec![
        ("binary", BitStringSegmentOption::Binary { location: at }),
        ("bytes", BitStringSegmentOption::Binary { location: at }),
        ("int", BitStringSegmentOption::Integer { location: at }),
        ("float", BitStringSegmentOption::Float { location: at }),
        ("bit_string", BitStringSegmentOption::BitString { location: at }),
        ("bits", BitStringSegmentOption::BitString { location: at }),
        ("utf8", BitStringSegmentOption::UTF8 { location: at }),
        ("utf16", BitStringSegmentOption::UTF16 { location: at }),
        ("utf32", BitStringSegmentOption::UTF32 { location: at }),
        ("utf8_codepoint", BitStringSegmentOption::UTF8Codepoint { location: at }),
        ("utf16_codepoint", BitStringSegmentOption::UTF16Codepoint { location: at }),
        ("utf32_codepoint", BitStringSegmentOption::UTF32Codepoint { location: at }),
        ("signed", BitStringSegmentOption::Signed { location: at }),
        ("unsigned", BitStringSegmentOption::Unsigned { location: at }),
        ("big", BitStringSegmentOption::Big { location: at }),
        ("little", BitStringSegmentOption::Little { location: at }),
        ("native", BitStringSegmentOption::Native { location: at }),
    ];
    for (keyword, option) in all {
        let parsed = parse_expression_sequence(vec![
            Ok((0, Tok::LtLt, 2)),
            Ok((3, Tok::Int { value: "1".to_string() }, 4)),
            Ok((5, Tok::Colon, 6)),
            Ok((7, Tok::Name { name: keyword.to_string() }, 10)),
            Ok((11, Tok::GtGt, 13)),
        ]);
        match parsed.unwrap() {
            UntypedExpr::BitString { segments, .. } => {
                assert_eq!(segments[0].options, vec![option]);
                assert_eq!(segments[0].location, span(3, 10));
            }
            other => panic!("{:?}", other),
        }
    }
    fails("<< 1 : huge >>", ParseErrorType::InvalidBitStringSegment, 7, 11);
    fails("<< 1 : half ( 2 ) >>", ParseErrorType::InvalidBitStringSegment, 7, 17);
    unexpected("<< 1 : size ( ) >>", "An expression", 14, 15);
    fails(
        "<< 1 : \"a\" 2 >>",
        ParseErrorType::UnexpectedToken {
            expected: vec![
                "A valid bitstring segment type".to_string(),
                "See: https://gleam.run/book/tour/bit-strings.html".to_string(),
            ],
        },
        11,
        12,
    );
}

#[test]
fn anonymous_functions_reach_up_to_their_end() {
    assert_eq!(
        expr("fn ( a ) { 1 }"),
        UntypedExpr::Fn {
            location: span(0, 14),
            is_capture: false,
            args: vec![Arg {
                names: ArgNames::Named { name: "a".to_string() },
                location: span(5, 6),
                annotation: None,
                typ: (),
            }],
            body: Box::new(number("1", 11, 12)),
            return_annotation: None,
        }
    );
    // With an annotation they reach up to that
    match expr("fn ( ) -> a { 1 }") {
        UntypedExpr::Fn { location, return_annotation, .. } => {
            assert_eq!(location, span(0, 11));
            assert_eq!(
                return_annotation,
                Some(TypeAst::Var { location: span(10, 11), name: "a".to_string() })
            );
        }
        other => panic!("{:?}", other),
    }
}

#[test]
fn blocks() {
    assert_eq!(expr("{ 1 }"), number("1", 2, 3));
    fails("{ }", ParseErrorType::NoExpression, 0, 3);
    unexpected("{ 1 )", "\"}\"", 4, 5);
}

#[test]
fn field_access() {
    assert_eq!(
        expr("a . b . C"),
        UntypedExpr::FieldAccess {
            location: span(0, 9),
            label: "C".to_string(),
            container: Box::new(UntypedExpr::FieldAccess {
                location: span(0, 5),
                label: "b".to_string(),
                container: Box::new(var("a", 0, 1)),
            }),
        }
    );
    unexpected("a . )", "A positive integer or a field name.", 4, 5);
}

#[test]
fn calls() {
    assert_eq!(
        expr("f ( 1 , a : b )"),
        UntypedExpr::Call {
            location: span(0, 15),
            fun: Box::new(var("f", 0, 1)),
            args: vec![
                CallArg { label: None, location: span(4, 5), value: number("1", 4, 5) },
                CallArg {
                    label: Some("a".to_string()),
                    location: span(8, 13),
                    value: var("b", 12, 13),
                },
            ],
        }
    );
    // Calls stack up
    match expr("f ( ) ( )") {
        UntypedExpr::Call { location, fun, .. } => {
            assert_eq!(location, span(0, 9));
            assert!(matches!(*fun, UntypedExpr::Call { .. }));
        }
        other => panic!("{:?}", other),
    }
}

#[test]
fn a_call_with_a_hole_is_a_function() {
    assert_eq!(
        expr("f ( 1 , a : _ )"),
        UntypedExpr::Fn {
            location: span(0, 15),
            is_capture: true,
            args: vec![Arg {
                names: ArgNames::Named { name: "_capture".to_string() },
                location: span(0, 0),
                annotation: None,
                typ: (),
            }],
            body: Box::new(UntypedExpr::Call {
                location: span(0, 15),
                fun: Box::new(var("f", 0, 1)),
                args: vec![
                    CallArg { label: None, location: span(4, 5), value: number("1", 4, 5) },
                    CallArg {
                        label: Some("a".to_string()),
                        location: span(12, 13),
                        value: var("_capture", 12, 13),
                    },
                ],
            }),
            return_annotation: None,
        }
    );
    fails("f ( _ , _ )", ParseErrorType::TooManyArgHoles, 0, 11);
    // A label without a value ends the arguments
    assert!(matches!(expr("f ( a : )"), UntypedExpr::Call { .. }));
}

#[test]
fn record_updates() {
    assert_eq!(
        expr("A ( .. b , c : 1 )"),
        UntypedExpr::RecordUpdate {
            location: span(0, 18),
            constructor: Box::new(var("A", 0, 1)),
            spread: RecordUpdateSpread { name: "b".to_string(), location: span(4, 8) },
            args: vec![UntypedRecordUpdateArg {
                label: "c".to_string(),
                location: span(11, 16),
                value: number("1", 15, 16),
            }],
        }
    );
    assert!(matches!(expr("A ( .. b )"), UntypedExpr::RecordUpdate { .. }));
    unexpected("A ( .. b , c : )", "An expression", 15, 16);
    unexpected("A ( .. b , c 1 )", "\":\"", 13, 14);
    fails("A ( .. B )", ParseErrorType::IncorrectName, 7, 8);
}

#[test]
fn sequences() {
    assert_eq!(
        expr("1 2 3"),
        UntypedExpr::Sequence {
            first: Box::new(number("1", 0, 1)),
            then: Box::new(UntypedExpr::Sequence {
                first: Box::new(number("2", 2, 3)),
                then: Box::new(number("3", 4, 5)),
            }),
        }
    );
}

#[test]
fn bindings() {
    assert_eq!(
        expr("let a : Int = 1 a"),
        UntypedExpr::Let {
            location: span(0, 15),
            value: Box::new(number("1", 14, 15)),
            pattern: Pattern::Var { location: span(4, 5), name: "a".to_string() },
            then: Box::new(var("a", 16, 17)),
            kind: BindingKind::Let,
            annotation: Some(TypeAst::Constructor {
                location: span(8, 11),
                module: None,
                name: "Int".to_string(),
                args: vec![],
            }),
        }
    );
    for (keyword, expected) in
        vec![("assert", BindingKind::Assert), ("try", BindingKind::Try), ("let", BindingKind::Let)]
    {
        match expr(&format!("{} a = b c", keyword)) {
            UntypedExpr::Let { kind, .. } => assert_eq!(kind, expected),
            other => panic!("{:?}", other),
        }
    }
}

#[test]
fn a_binding_needs_a_value_and_a_follower() {
    fails("let a = 1", ParseErrorType::ExprTailBinding, 0, 9);
    fails("let a =", ParseErrorType::ExpectedValue, 6, 7);
    unexpected("let a 1", "\"=\"", 6, 7);
    fails(
        "let )",
        ParseErrorType::UnexpectedToken {
            expected: vec![
                "A pattern".to_string(),
                "See: https://gleam.run/book/tour/patterns".to_string(),
            ],
        },
        4,
        5,
    );
    // An error in what follows comes before the missing value
    fails("let a = let b = 1", ParseErrorType::ExprTailBinding, 8, 17);
}

#[test]
fn lexical_errors_come_first_in_expressions() {
    let error = LexicalError {
        error: LexicalErrorType::UnrecognizedToken { tok: '?' },
        location: 4,
    };
    fails("1 + ?", ParseErrorType::LexError { error }, 4, 4);
}

#[test]
fn an_updated_record_may_stand_before_the_dots() {
    assert_eq!(
        expr("A ( a .. , label : tuple ( 1 ) )"),
        UntypedExpr::RecordUpdate {
            location: span(0, 32),
            constructor: Box::new(var("A", 0, 1)),
            spread: RecordUpdateSpread { name: "a".to_string(), location: span(4, 8) },
            args: vec![UntypedRecordUpdateArg {
                label: "label".to_string(),
                location: span(11, 30),
                value: UntypedExpr::Tuple {
                    location: span(19, 30),
                    elems: vec![number("1", 27, 28)],
                },
            }],
        }
    );
    assert_eq!(
        expr("A ( a .. )"),
        UntypedExpr::RecordUpdate {
            location: span(0, 10),
            constructor: Box::new(var("A", 0, 1)),
            spread: RecordUpdateSpread { name: "a".to_string(), location: span(4, 8) },
            args: vec![],
        }
    );
    // More updates may follow, with a comma behind the last one
    match expr("A ( a .. , b : 1 , c : 2 , )") {
        UntypedExpr::RecordUpdate { args, .. } => assert_eq!(args.len(), 2),
        other => panic!("{:?}", other),
    }
    // The new record can be used further
    assert!(matches!(expr("A ( a .. ) . b"), UntypedExpr::FieldAccess { .. }));
    unexpected("A ( a .. b )", "\")\"", 9, 10);
    unexpected("A ( a .. , c : )", "An expression", 15, 16);
    // Only a name can be updated, and only at the front
    unexpected("A ( 1 .. )", "\")\"", 6, 8);
    unexpected("A ( b , a .. )", "\")\"", 10, 12);
}

#[test]
fn braces_leave_no_node_of_their_own() {
    assert_eq!(expr("{ { 1 } }"), number("1", 4, 5));
    assert_eq!(expr("{ 1 2 }"), {
        UntypedExpr::Sequence {
            first: Box::new(number("1", 2, 3)),
            then: Box::new(number("2", 4, 5)),
        }
    });
    assert_eq!(
        expr("{ a } . b"),
        UntypedExpr::FieldAccess {
            location: span(2, 9),
            label: "b".to_string(),
            container: Box::new(var("a", 2, 3)),
        }
    );
    fails("1 + { }", ParseErrorType::NoExpression, 4, 7);
}

#[test]
fn a_comma_behind_the_last_element_changes_nothing() {
    let elements = |src: &str| match expr(src) {
        UntypedExpr::Tuple { elems, .. } => elems,
        other => panic!("{:?}", other),
    };
    assert_eq!(elements("tuple ( 1 , 2 )"), elements("tuple ( 1 , 2 , )"));
    assert_eq!(elements("tuple ( 1 , 2 , )"), vec![number("1", 8, 9), number("2", 12, 13)]);
    fails("tuple ( 1 , 2 , , )", ParseErrorType::ExtraSeparator, 16, 17);
    // Without a comma nothing more is looked for
    unexpected("tuple ( 1 2 )", "\")\"", 10, 11);
    // An error behind a comma is that of the series
    fails("tuple ( 1 , ( 2 ) )", ParseErrorType::ExprLparStart, 12, 12);
}

#[test]
fn an_operator_joins_those_that_bind_as_tight() {
    // When `+` comes, `*` and `-` are joined, and `==` stays
    assert_eq!(
        expr("a == b - c * d + e"),
        binop(
            BinOp::Eq,
            var("a", 0, 1),
            binop(
                BinOp::AddInt,
                binop(
                    BinOp::SubInt,
                    var("b", 5, 6),
                    binop(BinOp::MultInt, var("c", 9, 10), var("d", 13, 14), 9, 14),
                    5,
                    14,
                ),
                var("e", 17, 18),
                5,
                18,
            ),
            0,
            18,
        )
    );
}
