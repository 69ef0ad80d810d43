//! Whole inputs.

use crate::error::{ErrorView, Fault, ParseErrorType};
use crate::grammar::basics::{failed, found, series, span, Step};
use crate::grammar::exprs::expression_seq;
use crate::grammar::statements::statement_in;
use crate::model::{ExprView, ModuleView};
use crate::stream::{end_of, first_lex_error, lex_errors, peek, stream, Cursor, LexResult, Toks};
use vstd::prelude::*;

verus! {

/// The place before all tokens.
pub open spec fn start() -> Cursor {
    Cursor { at: 0, lost: false }
}

/// The definitions of a module, as far as there are any.
pub open spec fn definitions(t: Toks, c: Cursor) -> Step<ModuleView> {
    let found_all = series(statement_in(t), t, None, Seq::empty(), c);
    match found_all.res {
        Err(error) => failed(error, found_all.to),
        Ok(statements) => found(
            ModuleView { name: Seq::empty(), documentation: Seq::empty(), statements },
            found_all.to,
        ),
    }
}

/// What parsing an input comes to. A lexical error that has been met on the way comes first, then
/// an error of the parser, then a token that is left over. The parser meets all that stands up to
/// the second token ahead.
pub open spec fn checked<A>(input: Seq<LexResult>, step: Step<A>) -> Result<A, ErrorView> {
    match first_lex_error(input, step.to.at + 2) {
        Some(error) => Err(
            ErrorView {
                fault: Fault::Plain(ParseErrorType::LexError { error }),
                location: span(error.location, error.location),
            },
        ),
        None => match step.res {
            Err(error) => Err(error),
            Ok(value) => match peek(stream(input), step.to) {
                Some((start, _, end)) => Err(
                    ErrorView {
                        fault: Fault::Expected(seq!["An import, const, type, or function."@]),
                        location: span(start, end),
                    },
                ),
                None => Ok(value),
            },
        },
    }
}

/// Whether a step has read a whole input, in which there are no lexical errors.
pub open spec fn read_all<A>(input: Seq<LexResult>, step: Step<A>) -> bool {
    &&& lex_errors(input).len() == 0
    &&& step.to == end_of(stream(input))
}

/// The module that an input stands for.
pub open spec fn module_of(input: Seq<LexResult>) -> Result<ModuleView, ErrorView> {
    checked(input, definitions(stream(input), start()))
}

/// The sequence of expressions that an input stands for.
pub open spec fn expression_of(input: Seq<LexResult>) -> Result<ExprView, ErrorView> {
    match checked(input, expression_seq(stream(input), start())) {
        Err(error) => Err(error),
        Ok(Some((expr, _))) => Ok(expr),
        Ok(None) => Err(
            ErrorView { fault: Fault::Plain(ParseErrorType::ExpectedExpr), location: span(0, 0) },
        ),
    }
}

} // verus!
