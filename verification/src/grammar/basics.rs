//! Single tokens, and series of things.

use crate::ast::SrcSpan;
use crate::error::{ErrorView, Fault, ParseErrorType};
use crate::model::Text;
use crate::stream::{after, ahead, next, peek, Cursor, Toks};
use crate::token::{quoted, same_tok, Tok};
use vstd::prelude::*;

verus! {

/// What parsing leads to: a value or an error, and a place in the stream of tokens.
pub struct Step<A> {
    pub res: Result<A, ErrorView>,
    pub to: Cursor,
}

/// A value that was found.
pub open spec fn found<A>(value: A, to: Cursor) -> Step<A> {
    Step { res: Ok(value), to }
}

/// What was found, as one of the things that may be found.
pub open spec fn some_of<A>(step: Step<A>) -> Step<Option<A>> {
    match step.res {
        Ok(value) => found(Some(value), step.to),
        Err(error) => failed(error, step.to),
    }
}

/// Whether nothing was found.
pub open spec fn nothing<A>(step: Step<Option<A>>) -> bool {
    step.res matches Ok(None)
}

/// Whether something was found.
pub open spec fn something<A>(step: Step<Option<A>>) -> bool {
    step.res matches Ok(Some(_))
}

/// An error.
pub open spec fn failed<A>(error: ErrorView, to: Cursor) -> Step<A> {
    Step { res: Err(error), to }
}

/// An error of a kind at a location.
pub open spec fn error_at<A>(error: ParseErrorType, location: SrcSpan, to: Cursor) -> Step<A> {
    failed(ErrorView { fault: Fault::Plain(error), location }, to)
}

/// A stretch of source text.
pub open spec fn span(start: usize, end: usize) -> SrcSpan {
    SrcSpan { start, end }
}

/// The error that the next token is none of those expected, or that there is no next token.
pub open spec fn unexpected<A>(t: Toks, c: Cursor, expected: Seq<Text>) -> Step<A> {
    match peek(t, c) {
        None => error_at(ParseErrorType::UnexpectedEOF, span(0, 0), next(t, c)),
        Some((start, _, end)) => failed(
            ErrorView { fault: Fault::Expected(expected), location: span(start, end) },
            next(t, c),
        ),
    }
}

/// The offsets of the next token, if it is the wanted one.
pub open spec fn one(t: Toks, c: Cursor, wanted: Tok) -> Option<(usize, usize)> {
    match peek(t, c) {
        Some((start, tok, end)) => if same_tok(tok, wanted) {
            Some((start, end))
        } else {
            None
        },
        None => None,
    }
}

/// The place behind the next token if that is the wanted one, else the same place.
pub open spec fn skip_one(t: Toks, c: Cursor, wanted: Tok) -> Cursor {
    if one(t, c, wanted) is Some {
        next(t, c)
    } else {
        c
    }
}

/// The wanted token.
pub open spec fn expect_one(t: Toks, c: Cursor, wanted: Tok) -> Step<(usize, usize)> {
    match one(t, c, wanted) {
        Some(offsets) => found(offsets, next(t, c)),
        None => unexpected(t, c, seq![quoted(wanted)]),
    }
}

/// The keywords, none of which is a name.
pub open spec fn reserved(tok: Tok) -> bool {
    match tok {
        Tok::As
        | Tok::Assert
        | Tok::Case
        | Tok::Const
        | Tok::External
        | Tok::Fn
        | Tok::If
        | Tok::Import
        | Tok::Let
        | Tok::Opaque
        | Tok::Pub
        | Tok::Todo
        | Tok::Try
        | Tok::Tuple
        | Tok::Type => true,
        _ => false,
    }
}

/// A name that starts with a lower case letter, or an error that fits the token in its place.
pub open spec fn expect_name(t: Toks, c: Cursor) -> Step<(usize, Text, usize)> {
    let to = next(t, c);
    match peek(t, c) {
        None => error_at(ParseErrorType::UnexpectedEOF, span(0, 0), to),
        Some((start, tok, end)) => match tok {
            Tok::Name { name } => found((start, name@, end), to),
            Tok::UpName { .. } => error_at(ParseErrorType::IncorrectName, span(start, end), to),
            Tok::DiscardName { .. } => error_at(
                ParseErrorType::IncorrectName,
                span(start, end),
                to,
            ),
            _ => if reserved(tok) {
                error_at(ParseErrorType::UnexpectedReservedWord, span(start, end), to)
            } else {
                error_at(ParseErrorType::ExpectedName, span(start, end), to)
            },
        },
    }
}

/// A name that starts with an upper case letter, or an error that fits the token in its place.
pub open spec fn expect_upname(t: Toks, c: Cursor) -> Step<(usize, Text, usize)> {
    let to = next(t, c);
    match peek(t, c) {
        None => error_at(ParseErrorType::UnexpectedEOF, span(0, 0), to),
        Some((start, tok, end)) => match tok {
            Tok::UpName { name } => found((start, name@, end), to),
            Tok::Name { .. } => error_at(ParseErrorType::IncorrectUpName, span(start, end), to),
            Tok::DiscardName { .. } => error_at(
                ParseErrorType::IncorrectUpName,
                span(start, end),
                to,
            ),
            _ => error_at(ParseErrorType::ExpectedUpName, span(start, end), to),
        },
    }
}

/// A string literal. The error in its absence is that at the token behind.
pub open spec fn expect_string(t: Toks, c: Cursor) -> Step<(usize, Text, usize)> {
    match peek(t, c) {
        Some((start, Tok::String { value }, end)) => found((start, value@, end), next(t, c)),
        _ => unexpected(t, next(t, c), seq!["a string"@]),
    }
}

/// The next token, if it is a name that starts with a lower case letter.
pub open spec fn maybe_name(t: Toks, c: Cursor) -> Option<(usize, Text, usize)> {
    match peek(t, c) {
        Some((start, Tok::Name { name }, end)) => Some((start, name@, end)),
        _ => None,
    }
}

/// The next token, if it is a name that starts with an upper case letter.
pub open spec fn maybe_upname(t: Toks, c: Cursor) -> Option<(usize, Text, usize)> {
    match peek(t, c) {
        Some((start, Tok::UpName { name }, end)) => Some((start, name@, end)),
        _ => None,
    }
}

/// The next token, if it is a name that starts with an underscore.
pub open spec fn maybe_discard_name(t: Toks, c: Cursor) -> Option<(usize, Text, usize)> {
    match peek(t, c) {
        Some((start, Tok::DiscardName { name }, end)) => Some((start, name@, end)),
        _ => None,
    }
}

/// The values before `c` followed by those that `p` finds from `c` on, one after another with the
/// separator between them, if there is one. A separator may stand behind the last value; two in
/// a row are an error. Where `p` finds a value it has to get ahead: behind the last token the
/// series ends.
pub open spec fn series<A>(
    p: spec_fn(Cursor) -> Step<Option<A>>,
    t: Toks,
    sep: Option<Tok>,
    before: Seq<A>,
    c: Cursor,
) -> Step<Seq<A>>
    decreases ahead(t, c),
{
    let item = p(c);
    match item.res {
        Err(error) => failed(error, item.to),
        Ok(None) => found(before, item.to),
        Ok(Some(value)) => match sep {
            None => if c.at < t.len() {
                series(p, t, sep, before.push(value), after(t, c, item.to))
            } else {
                found(before.push(value), item.to)
            },
            Some(tok) => match one(t, item.to, tok) {
                None => found(before.push(value), item.to),
                Some(_) => {
                    let behind = next(t, item.to);
                    match one(t, behind, tok) {
                        Some((start, end)) => error_at(
                            ParseErrorType::ExtraSeparator,
                            span(start, end),
                            next(t, behind),
                        ),
                        None => if c.at < t.len() {
                            series(p, t, sep, before.push(value), after(t, c, behind))
                        } else {
                            found(before.push(value), behind)
                        },
                    }
                },
            },
        },
    }
}

} // verus!
