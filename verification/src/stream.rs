//! What a parser reads: a sequence of tokens, comments, blank lines and lexical errors, and a place
//! in it.

use crate::ast::SrcSpan;
use crate::error::LexicalError;
use crate::extra::ExtraView;
use crate::token::{is_layout, Spanned, Tok};
use vstd::prelude::*;

verus! {

/// What a lexer yields: a token, or the reason why there is none.
pub type LexResult = Result<Spanned, LexicalError>;

/// The tokens of an input without its comments and blank lines. Where a token could not be read
/// there is a gap.
pub type Toks = Seq<Option<Spanned>>;

/// The tokens of an input, with a gap at each lexical error.
pub open spec fn stream(input: Seq<LexResult>) -> Toks
    decreases input.len(),
{
    if input.len() == 0 {
        Seq::empty()
    } else {
        let rest = stream(input.drop_first());
        match input[0] {
            Ok(spanned) => if is_layout(spanned.1) {
                rest
            } else {
                seq![Some(spanned)] + rest
            },
            Err(_) => seq![None] + rest,
        }
    }
}

/// The lexical errors of an input, in order.
pub open spec fn lex_errors(input: Seq<LexResult>) -> Seq<LexicalError>
    decreases input.len(),
{
    if input.len() == 0 {
        Seq::empty()
    } else {
        let before = lex_errors(input.drop_last());
        match input.last() {
            Ok(_) => before,
            Err(error) => before.push(error),
        }
    }
}

/// The comments and blank lines of an input, in order.
pub open spec fn extra_of(input: Seq<LexResult>) -> ExtraView
    decreases input.len(),
{
    if input.len() == 0 {
        ExtraView::none()
    } else {
        let before = extra_of(input.drop_last());
        match input.last() {
            Ok((start, Tok::EmptyLine, end)) => ExtraView {
                empty_lines: before.empty_lines.push(start),
                ..before
            },
            Ok((start, Tok::CommentNormal, end)) => ExtraView {
                comments: before.comments.push(SrcSpan { start, end }),
                ..before
            },
            Ok((start, Tok::CommentDoc, end)) => ExtraView {
                doc_comments: before.doc_comments.push(SrcSpan { start, end }),
                ..before
            },
            Ok((start, Tok::CommentModule, end)) => ExtraView {
                module_comments: before.module_comments.push(SrcSpan { start, end }),
                ..before
            },
            _ => before,
        }
    }
}

/// The first lexical error among the first `count` tokens and gaps of an input.
pub open spec fn first_lex_error(input: Seq<LexResult>, count: nat) -> Option<LexicalError>
    decreases input.len(),
{
    if input.len() == 0 || count == 0 {
        None
    } else {
        match input[0] {
            Err(error) => Some(error),
            Ok(spanned) => first_lex_error(
                input.drop_first(),
                if is_layout(spanned.1) {
                    count
                } else {
                    (count - 1) as nat
                },
            ),
        }
    }
}

/// How many items of an input are read to get its first `count` tokens and gaps: those up to the
/// last of these, or all if there are fewer.
pub open spec fn read_for(input: Seq<LexResult>, count: nat) -> nat
    decreases input.len(),
{
    if input.len() == 0 || count == 0 {
        0
    } else {
        let left = match input[0] {
            Ok(spanned) => if is_layout(spanned.1) {
                count
            } else {
                (count - 1) as nat
            },
            Err(_) => (count - 1) as nat,
        };
        1 + read_for(input.drop_first(), left)
    }
}

/// Whether the offsets of a token leave room for those that the parser derives from them: the
/// byte before a closing bracket or brace, and the byte behind the slash of `/.`.
pub open spec fn span_ok(spanned: Spanned) -> bool {
    match spanned.1 {
        Tok::Rsqb | Tok::Rbrace => spanned.2 > 0,
        Tok::SlashDot => spanned.0 < usize::MAX,
        _ => true,
    }
}

/// Whether the offsets of all tokens of an input leave that room.
pub open spec fn spans_ok(input: Seq<LexResult>) -> bool {
    forall|i: int|
        0 <= i < input.len() ==> ((#[trigger] input[i]) matches Ok(spanned) ==> span_ok(spanned))
}

/// Whether the offsets of all tokens of a stream leave that room.
pub open spec fn toks_ok(t: Toks) -> bool {
    forall|i: int|
        0 <= i < t.len() ==> ((#[trigger] t[i]) matches Some(spanned) ==> span_ok(spanned))
}

/// A place in a stream of tokens: how many of them lie behind, and whether the next one has been
/// given up after an error and can no longer be read.
pub struct Cursor {
    pub at: nat,
    pub lost: bool,
}

/// The token at a position of a stream.
pub open spec fn token_at(t: Toks, i: int) -> Option<Spanned> {
    if 0 <= i < t.len() {
        t[i]
    } else {
        None
    }
}

/// The next token.
pub open spec fn peek(t: Toks, c: Cursor) -> Option<Spanned> {
    if c.lost {
        None
    } else {
        token_at(t, c.at as int)
    }
}

/// The token after the next one.
pub open spec fn peek_second(t: Toks, c: Cursor) -> Option<Spanned> {
    token_at(t, c.at as int + 1)
}

/// The place behind the next token.
pub open spec fn next(t: Toks, c: Cursor) -> Cursor {
    Cursor {
        at: if c.at < t.len() {
            c.at + 1
        } else {
            c.at
        },
        lost: false,
    }
}

/// The place at which the next token is given up.
pub open spec fn give_up(c: Cursor) -> Cursor {
    Cursor { at: c.at, lost: true }
}

/// The place behind all tokens.
pub open spec fn end_of(t: Toks) -> Cursor {
    Cursor { at: t.len(), lost: false }
}

/// How many tokens lie ahead.
pub open spec fn ahead(t: Toks, c: Cursor) -> nat {
    if c.at <= t.len() {
        (t.len() - c.at) as nat
    } else {
        0
    }
}

/// `d`, if it lies at or behind `c`, as each place does that parsing from `c` leads to (see
/// [`crate::laws::places`]). With it the grammar, which recurs at `d`, is well-founded by definition.
pub open spec fn from(t: Toks, c: Cursor, d: Cursor) -> Cursor {
    if c.at <= d.at <= t.len() {
        d
    } else {
        end_of(t)
    }
}

/// `d`, if it lies behind `c`, as each place does to which parsing something from `c` leads (see
/// [`crate::laws::places`]).
pub open spec fn after(t: Toks, c: Cursor, d: Cursor) -> Cursor {
    if c.at < d.at <= t.len() {
        d
    } else {
        end_of(t)
    }
}

pub proof fn lemma_stream_ok(input: Seq<LexResult>)
    requires
        spans_ok(input),
    ensures
        toks_ok(stream(input)),
    decreases input.len(),
{
    if input.len() > 0 {
        lemma_stream_ok(input.drop_first());
        assert(input[0] matches Ok(spanned) ==> span_ok(spanned));
        let rest = stream(input.drop_first());
        assert forall|i: int| 0 <= i < stream(input).len() implies ((#[trigger] stream(
            input,
        )[i]) matches Some(spanned) ==> span_ok(spanned)) by {
            if stream(input).len() == rest.len() + 1 && i > 0 {
                assert(stream(input)[i] == rest[i - 1]);
            }
        }
    }
}

/// To get one token more, the parser reads on from where it is.
pub proof fn lemma_read_on(input: Seq<LexResult>, count: nat)
    ensures
        read_for(input, count) <= input.len(),
        read_for(input, count + 1) == read_for(input, count) + read_for(
            input.skip(read_for(input, count) as int),
            1,
        ),
    decreases input.len(),
{
    if input.len() == 0 || count == 0 {
        assert(input.skip(0) =~= input);
    } else {
        let rest = input.drop_first();
        let left = match input[0] {
            Ok(spanned) => if is_layout(spanned.1) {
                count
            } else {
                (count - 1) as nat
            },
            Err(_) => (count - 1) as nat,
        };
        lemma_read_on(rest, left);
        assert(rest.skip(read_for(rest, left) as int) =~= input.skip(
            read_for(input, count) as int,
        ));
    }
}

pub proof fn lemma_stream_add(a: Seq<LexResult>, b: Seq<LexResult>)
    ensures
        stream(a + b) == stream(a) + stream(b),
    decreases a.len(),
{
    if a.len() == 0 {
        assert(a + b =~= b);
        assert(stream(a) + stream(b) =~= stream(b));
    } else {
        lemma_stream_add(a.drop_first(), b);
        assert((a + b).drop_first() =~= a.drop_first() + b);
        assert(stream(a + b) =~= stream(a) + stream(b));
    }
}

/// Once all tokens are counted in, counting further changes nothing.
pub proof fn lemma_first_lex_error_all(input: Seq<LexResult>, count: nat)
    requires
        count >= stream(input).len(),
    ensures
        first_lex_error(input, count) == first_lex_error(input, stream(input).len()),
    decreases input.len(),
{
    if input.len() > 0 {
        let rest = input.drop_first();
        let len = stream(rest).len();
        match input[0] {
            Ok(spanned) => {
                if is_layout(spanned.1) {
                    lemma_first_lex_error_all(rest, count);
                    if stream(input).len() == 0 {
                        lemma_no_tokens_no_error(input);
                        lemma_no_tokens_no_error_at(input, count);
                    }
                } else {
                    lemma_first_lex_error_all(rest, (count - 1) as nat);
                }
            },
            Err(_) => {},
        }
    }
}

proof fn lemma_no_tokens_no_error(input: Seq<LexResult>)
    requires
        stream(input).len() == 0,
    ensures
        lex_errors(input).len() == 0,
    decreases input.len(),
{
    if input.len() > 0 {
        assert(input =~= input.drop_last() + seq![input.last()]);
        lemma_stream_add(input.drop_last(), seq![input.last()]);
        lemma_no_tokens_no_error(input.drop_last());
        assert(seq![input.last()].drop_first() =~= Seq::empty());
    }
}

proof fn lemma_no_tokens_no_error_at(input: Seq<LexResult>, count: nat)
    requires
        stream(input).len() == 0,
    ensures
        first_lex_error(input, count) is None,
    decreases input.len(),
{
    if input.len() > 0 {
        lemma_no_tokens_no_error_at(input.drop_first(), count);
    }
}

pub proof fn lemma_lex_errors_add(a: Seq<LexResult>, b: Seq<LexResult>)
    ensures
        lex_errors(a + b) == lex_errors(a) + lex_errors(b),
    decreases b.len(),
{
    if b.len() == 0 {
        assert(a + b =~= a);
        assert(lex_errors(a) + lex_errors(b) =~= lex_errors(a));
    } else {
        lemma_lex_errors_add(a, b.drop_last());
        assert((a + b).drop_last() =~= a + b.drop_last());
        assert(lex_errors(a + b) =~= lex_errors(a) + lex_errors(b));
    }
}

/// The first lexical error of a part of the input that holds `count` tokens and gaps is the first
/// one among the first `count` tokens and gaps of the whole input.
pub proof fn lemma_first_lex_error(part: Seq<LexResult>, rest: Seq<LexResult>)
    ensures
        first_lex_error(part + rest, stream(part).len()) == (if lex_errors(part).len() == 0 {
            None
        } else {
            Some(lex_errors(part)[0])
        }),
    decreases part.len(),
{
    if part.len() == 0 {
    } else {
        let whole = part + rest;
        let head = seq![part[0]];
        let tail = part.drop_first();
        assert(whole.drop_first() =~= tail + rest);
        assert(part =~= head + tail);
        lemma_lex_errors_add(head, tail);
        assert(lex_errors(head.drop_last()) =~= Seq::empty());
        assert(head.last() == part[0]);
        lemma_first_lex_error(tail, rest);
        if stream(part).len() == 0 {
            lemma_no_tokens_no_error(part);
        }
    }
}

/// An input without lexical errors has no gaps.
pub proof fn lemma_no_gaps(input: Seq<LexResult>)
    requires
        lex_errors(input).len() == 0,
    ensures
        forall|i: int| 0 <= i < stream(input).len() ==> (#[trigger] stream(input)[i]) is Some,
    decreases input.len(),
{
    if input.len() > 0 {
        let head = seq![input[0]];
        let tail = input.drop_first();
        assert(input =~= head + tail);
        lemma_lex_errors_add(head, tail);
        assert(head.drop_last() =~= Seq::empty());
        lemma_no_gaps(tail);
        assert forall|i: int| 0 <= i < stream(input).len() implies (#[trigger] stream(
            input,
        )[i]) is Some by {
            if stream(input).len() == stream(tail).len() + 1 && i > 0 {
                assert(stream(input)[i] == stream(tail)[i - 1]);
            }
        }
    }
}

} // verus!
