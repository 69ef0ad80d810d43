//! Case expressions: patterns and guards.

use gleam_parser::ast::{
    BitStringSegment, BitStringSegmentOption, CallArg, Clause, ClauseGuard, Constant, Pattern,
    SrcSpan, UntypedExpr,
};
use gleam_parser::error::{LexicalError, LexicalErrorType, ParseError, ParseErrorType};
use gleam_parser::parse_expression_sequence;
use gleam_parser::stream::LexResult;
use gleam_parser::token::Tok;

/// The tokens of a text in which all tokens stand apart. A `?` is a lexical error.
fn tokens(src: &str) -> Vec<LexResult> {
    let mut all = vec![];
    let mut start = 0;
    for word in src.split(' ') {
        let end = start + word.len();
        if word == "?" {
            all.push(Err(LexicalError {
                error: LexicalErrorType::UnrecognizedToken { tok: '?' },
                location: start,
            }));
        } else if !word.is_empty() {
            all.push(Ok((start, token(word), end)));
        }
        start = end + 1;
    }
    all
}

fn token(word: &str) -> Tok {
    let fixed = vec![
        Tok::Lpar, Tok::Rpar, Tok::Lsqb, Tok::Rsqb, Tok::Lbrace, Tok::Rbrace, Tok::Plus,
        Tok::Minus, Tok::Star, Tok::Slash, Tok::Less, Tok::Greater, Tok::LessEqual,
        Tok::GreaterEqual, Tok::Percent, Tok::PlusDot, Tok::MinusDot, Tok::StarDot, Tok::SlashDot,
        Tok::LessDot, Tok::GreaterDot, Tok::LessEqualDot, Tok::GreaterEqualDot, Tok::Colon,
        Tok::Comma, Tok::Equal, Tok::EqualEqual, Tok::NotEqual, Tok::Vbar, Tok::VbarVbar,
        Tok::AmperAmper, Tok::LtLt, Tok::GtGt, Tok::Pipe, Tok::Dot, Tok::RArrow, Tok::DotDot,
        Tok::ListNil, Tok::CommentNormal, Tok::CommentDoc, Tok::CommentModule, Tok::EmptyLine,
        Tok::As, Tok::Assert, Tok::Case, Tok::Const, Tok::External, Tok::Fn, Tok::If, Tok::Import,
        Tok::Let, Tok::Opaque, Tok::Pub, Tok::Todo, Tok::Try, Tok::Tuple, Tok::Type,
    ];
    for tok in fixed {
        if tok.lexeme() == word {
            return tok;
        }
    }
    let text = word.to_string();
    let first = word.chars().next().unwrap();
    if first == '"' {
        Tok::String { value: text.replace('"', "") }
    } else if first.is_ascii_digit() && word.contains('.') {
        Tok::Float { value: text }
    } else if first.is_ascii_digit() {
        Tok::Int { value: text }
    } else if first == '_' {
        Tok::DiscardName { name: text }
    } else if first.is_uppercase() {
        Tok::UpName { name: text }
    } else {
        Tok::Name { name: text }
    }
}

fn span(start: usize, end: usize) -> SrcSpan {
    SrcSpan { start, end }
}

fn clauses(src: &str) -> Vec<Clause> {
    match parse_expression_sequence(tokens(src)).unwrap() {
        UntypedExpr::Case { clauses, .. } => clauses,
        other => panic!("{:?}", other),
    }
}

fn fails(src: &str, error: ParseErrorType, start: usize, end: usize) {
    assert_eq!(
        parse_expression_sequence(tokens(src)).unwrap_err(),
        ParseError { error, location: span(start, end) }
    );
}

fn unexpected(src: &str, expected: &str, start: usize, end: usize) {
    let expected = vec![expected.to_string()];
    fails(src, ParseErrorType::UnexpectedToken { expected }, start, end);
}

/// The pattern in `case x { pattern -> 1 }`, which starts at offset 9.
fn pattern(src: &str) -> Pattern {
    let mut all = clauses(&format!("case x {{ {} -> 1 }}", src));
    assert_eq!(all.len(), 1);
    let mut patterns = all.pop().unwrap().pattern;
    assert_eq!(patterns.len(), 1);
    patterns.pop().unwrap()
}

/// The guard in `case x { y guard -> 1 }`, which starts at offset 11.
fn guard(src: &str) -> Option<ClauseGuard> {
    let mut all = clauses(&format!("case x {{ y {} -> 1 }}", src));
    assert_eq!(all.len(), 1);
    all.pop().unwrap().guard
}

fn guard_fails(src: &str, error: ParseErrorType, start: usize, end: usize) {
    fails(&format!("case x {{ y {} -> 1 }}", src), error, start, end);
}

fn pattern_fails(src: &str, error: ParseErrorType, start: usize, end: usize) {
    fails(&format!("case x {{ {} -> 1 }}", src), error, start, end);
}

fn guard_var(name: &str, start: usize, end: usize) -> ClauseGuard {
    ClauseGuard::Var { location: span(start, end), typ: (), name: name.to_string() }
}

fn pattern_var(name: &str, start: usize, end: usize) -> Pattern {
    Pattern::Var { location: span(start, end), name: name.to_string() }
}

fn pattern_int(value: &str, start: usize, end: usize) -> Pattern {
    Pattern::Int { location: span(start, end), value: value.to_string() }
}

#[test]
fn a_clause_with_alternatives_and_a_guard() {
    let all = clauses("case a , b { 1 , _ | c , 2 if d -> e _ , _ -> f }");
    assert_eq!(all.len(), 2);
    assert_eq!(
        all[0],
        Clause {
            location: span(13, 36),
            pattern: vec![
                pattern_int("1", 13, 14),
                Pattern::Discard { name: "_".to_string(), location: span(17, 18) },
            ],
            alternative_patterns: vec![vec![pattern_var("c", 21, 22), pattern_int("2", 25, 26)]],
            guard: Some(guard_var("d", 30, 31)),
            then: UntypedExpr::Var { location: span(35, 36), name: "e".to_string() },
        }
    );
    assert_eq!(all[1].pattern.len(), 2);
    assert_eq!(all[1].guard, None);
    assert!(all[1].alternative_patterns.is_empty());
}

#[test]
fn a_case_spans_from_its_keyword_to_its_brace() {
    match parse_expression_sequence(tokens("case a { b -> c }")).unwrap() {
        UntypedExpr::Case { location, subjects, .. } => {
            assert_eq!(location, span(0, 17));
            assert_eq!(subjects.len(), 1);
        }
        other => panic!("{:?}", other),
    }
}

#[test]
fn case_errors() {
    // A brace behind the keyword starts a subject
    unexpected("case { a -> b }", "\"}\"", 9, 11);
    fails("case a { }", ParseErrorType::NoCaseClause, 0, 10);
    fails("case a { b -> }", ParseErrorType::ExpectedExpr, 11, 13);
    unexpected("case a { b c }", "\"->\"", 11, 12);
    unexpected("case a b", "\"{\"", 7, 8);
}

#[test]
fn simple_patterns() {
    assert_eq!(pattern("a"), pattern_var("a", 9, 10));
    assert_eq!(pattern("_a"), Pattern::Discard { name: "_a".to_string(), location: span(9, 11) });
    assert_eq!(pattern("1"), pattern_int("1", 9, 10));
    assert_eq!(
        pattern("1.5"),
        Pattern::Float { location: span(9, 12), value: "1.5".to_string() }
    );
    assert_eq!(
        pattern("\"a\""),
        Pattern::String { location: span(9, 12), value: "a".to_string() }
    );
    assert_eq!(pattern("[]"), Pattern::Nil { location: span(9, 11) });
    assert_eq!(
        pattern("a as b"),
        Pattern::Let { name: "b".to_string(), pattern: Box::new(pattern_var("a", 9, 10)) }
    );
    pattern_fails("a as B", ParseErrorType::IncorrectName, 14, 15);
}

#[test]
fn tuple_patterns() {
    assert_eq!(
        pattern("tuple ( a , 1 )"),
        Pattern::Tuple {
            location: span(9, 24),
            elems: vec![pattern_var("a", 17, 18), pattern_int("1", 21, 22)],
        }
    );
    pattern_fails("tuple ( a , , b )", ParseErrorType::ExtraSeparator, 21, 22);
}

#[test]
fn list_patterns_start_at_their_bracket() {
    assert_eq!(
        pattern("[ a , b ]"),
        Pattern::Cons {
            location: span(9, 12),
            head: Box::new(pattern_var("a", 11, 12)),
            tail: Box::new(Pattern::Cons {
                location: span(15, 16),
                head: Box::new(pattern_var("b", 15, 16)),
                tail: Box::new(Pattern::Nil { location: span(17, 18) }),
            }),
        }
    );
    assert_eq!(
        pattern("[ a , .. b ]"),
        Pattern::Cons {
            location: span(9, 12),
            head: Box::new(pattern_var("a", 11, 12)),
            tail: Box::new(pattern_var("b", 18, 19)),
        }
    );
    // A tail without a name is discarded
    assert_eq!(
        pattern("[ a , .. , ]"),
        Pattern::Cons {
            location: span(9, 12),
            head: Box::new(pattern_var("a", 11, 12)),
            tail: Box::new(Pattern::Discard { name: "_".to_string(), location: span(20, 21) }),
        }
    );
    // A list without elements is its tail
    assert_eq!(pattern("[ ]"), Pattern::Nil { location: span(11, 12) });
    assert_eq!(pattern("[ .. a ]"), pattern_var("a", 14, 15));
    pattern_fails("[ a , .. 1 ]", ParseErrorType::InvalidTailPattern, 18, 19);
    pattern_fails("[ a , .. [] ]", ParseErrorType::InvalidTailPattern, 18, 20);
}

#[test]
fn constructor_patterns() {
    assert_eq!(
        pattern("A"),
        Pattern::Constructor {
            location: span(9, 10),
            name: "A".to_string(),
            args: vec![],
            module: None,
            constructor: (),
            with_spread: false,
        }
    );
    assert_eq!(
        pattern("m . A ( a , b : 1 , .. )"),
        Pattern::Constructor {
            location: span(9, 33),
            name: "A".to_string(),
            args: vec![
                CallArg { label: None, location: span(17, 18), value: pattern_var("a", 17, 18) },
                CallArg {
                    label: Some("b".to_string()),
                    location: span(21, 26),
                    value: pattern_int("1", 25, 26),
                },
            ],
            module: Some("m".to_string()),
            constructor: (),
            with_spread: true,
        }
    );
    pattern_fails("A ( b : )", ParseErrorType::ExpectedPattern, 15, 16);
    pattern_fails("m . a", ParseErrorType::IncorrectUpName, 13, 14);
}

#[test]
fn bit_string_patterns() {
    assert_eq!(
        pattern("<< a : size ( n ) , 1 : size ( 8 ) - 4 >>"),
        Pattern::BitString {
            location: span(9, 50),
            segments: vec![
                BitStringSegment {
                    location: span(12, 26),
                    value: Box::new(pattern_var("a", 12, 13)),
                    options: vec![BitStringSegmentOption::Size {
                        location: span(16, 26),
                        value: Box::new(Pattern::VarCall {
                            location: span(23, 24),
                            name: "n".to_string(),
                            typ: (),
                        }),
                        short_form: false,
                    }],
                    typ: (),
                },
                BitStringSegment {
                    location: span(29, 47),
                    value: Box::new(pattern_int("1", 29, 30)),
                    options: vec![
                        BitStringSegmentOption::Size {
                            location: span(33, 43),
                            value: Box::new(pattern_int("8", 40, 41)),
                            short_form: false,
                        },
                        BitStringSegmentOption::Size {
                            location: span(46, 47),
                            value: Box::new(pattern_int("4", 46, 47)),
                            short_form: true,
                        },
                    ],
                    typ: (),
                },
            ],
        }
    );
    // The argument of an option has to be a name or a number
    let expected = vec!["A variable name or an integer".to_string()];
    pattern_fails(
        "<< a : size ( A ) >>",
        ParseErrorType::UnexpectedToken { expected },
        25,
        26,
    );
}

#[test]
fn guards() {
    assert_eq!(guard("if a"), Some(guard_var("a", 14, 15)));
    assert_eq!(
        guard("if 1"),
        Some(ClauseGuard::Constant(Constant::Int {
            location: span(14, 15),
            value: "1".to_string(),
        }))
    );
    assert_eq!(
        guard("if a . 1"),
        Some(ClauseGuard::TupleIndex {
            location: span(16, 19),
            index: 1,
            typ: (),
            tuple: Box::new(guard_var("a", 14, 15)),
        })
    );
    assert_eq!(guard("if { a }"), Some(guard_var("a", 16, 17)));
    // An `if` with nothing behind it, or with empty braces, is no guard
    assert_eq!(guard("if"), None);
    assert_eq!(guard("if { }"), None);
}

#[test]
fn operators_between_guards() {
    let all: Vec<(&str, fn(SrcSpan, Box<ClauseGuard>, Box<ClauseGuard>) -> ClauseGuard)> = vec![
        ("||", |location, left, right| ClauseGuard::Or { location, left, right }),
        ("&&", |location, left, right| ClauseGuard::And { location, left, right }),
        ("==", |location, left, right| ClauseGuard::Equals { location, left, right }),
        ("!=", |location, left, right| ClauseGuard::NotEquals { location, left, right }),
        (">", |location, left, right| ClauseGuard::GtInt { location, left, right }),
        (">=", |location, left, right| ClauseGuard::GtEqInt { location, left, right }),
        ("<", |location, left, right| ClauseGuard::LtInt { location, left, right }),
        ("<=", |location, left, right| ClauseGuard::LtEqInt { location, left, right }),
        (">.", |location, left, right| ClauseGuard::GtFloat { location, left, right }),
        (">=.", |location, left, right| ClauseGuard::GtEqFloat { location, left, right }),
        ("<.", |location, left, right| ClauseGuard::LtFloat { location, left, right }),
        ("<=.", |location, left, right| ClauseGuard::LtEqFloat { location, left, right }),
    ];
    for (text, make) in all {
        let end = 18 + text.len();
        assert_eq!(
            guard(&format!("if a {} b", text)),
            Some(make(
                span(14, end),
                Box::new(guard_var("a", 14, 15)),
                Box::new(guard_var("b", end - 1, end)),
            ))
        );
    }
    // The same grouping as between expressions
    assert!(matches!(guard("if a || b && c"), Some(ClauseGuard::Or { .. })));
    assert!(matches!(guard("if a && b || c"), Some(ClauseGuard::Or { .. })));
    match guard("if a > b > c") {
        Some(ClauseGuard::GtInt { left, right, .. }) => {
            assert!(matches!(*left, ClauseGuard::GtInt { .. }));
            assert_eq!(*right, guard_var("c", 22, 23));
        }
        other => panic!("{:?}", other),
    }
}

#[test]
fn guard_errors() {
    guard_fails("if a ||", ParseErrorType::OpNakedRight, 16, 18);
    guard_fails("if a . b", ParseErrorType::InvalidTupleAccess, 18, 19);
    guard_fails("if a . 0x1", ParseErrorType::InvalidTupleAccess, 14, 15);
    guard_fails("if []", ParseErrorType::ListNilNotAllowed, 14, 16);
    fails("case x { y if a .", ParseErrorType::UnexpectedEOF, 0, 0);
    // A guard has to be followed by something
    fails("case x { y if a", ParseErrorType::OpNakedRight, 0, 0);
    fails("case x { y if a == b", ParseErrorType::OpNakedRight, 16, 18);
    // Inside braces the missing brace is reported, not what is wrong with the guard
    let expected = vec!["\"}\"".to_string()];
    guard_fails("if { a || }", ParseErrorType::OpNakedRight, 18, 20);
    guard_fails("if { [] }", ParseErrorType::UnexpectedEOF, 0, 0);
    guard_fails("if { a )", ParseErrorType::UnexpectedToken { expected }, 18, 19);
}

#[test]
fn patterns_of_every_kind_may_be_named() {
    let named = |src: &str| match pattern(&format!("{} as name", src)) {
        Pattern::Let { name, pattern } => {
            assert_eq!(name, "name");
            *pattern
        }
        other => panic!("{:?}", other),
    };
    for src in vec![
        "a", "_", "1", "1.5", "\"a\"", "[]", "[ a , .. b ]", "tuple ( a , 1 )", "A", "m . A",
        "A ( b : 1 , .. )", "m . A ( 1 as c )", "<< a : 8 , b : binary >>",
    ] {
        assert_eq!(named(src), pattern(src));
    }
    // Only once
    unexpected("case x { a as b as c -> 1 }", "\"->\"", 16, 18);
}
