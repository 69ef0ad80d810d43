//! The parser.

use crate::ast::{Module, SrcSpan, Statement, UntypedExpr};
use crate::error::{outcome, parse_error, ErrorView, LexicalError, ParseError, ParseErrorType};
use crate::extra::{ExtraView, ModuleExtra};
use crate::grammar::basics::{
    expect_name, expect_one, expect_string, expect_upname, maybe_discard_name, maybe_name,
    maybe_upname, one, reserved, series, skip_one, unexpected, Step,
};
use crate::grammar::modules::{checked, definitions, expression_of, module_of};
use crate::grammar::statements::{statement, statement_in};
use crate::model::ModuleView;
use crate::stream::{
    ahead, extra_of, first_lex_error, give_up, lemma_first_lex_error, lemma_first_lex_error_all,
    lemma_no_gaps, lemma_read_on, lemma_stream_add, lemma_stream_ok, lex_errors, next, peek,
    peek_second, read_for, spans_ok, stream, token_at, toks_ok, Cursor, LexResult, Toks,
};
use crate::token::{Spanned, Tok};
use vstd::prelude::*;

mod clauses;
mod constants;
mod exprs;
mod functions;
mod guards;
mod patterns;
mod segments;
mod statements;
mod types;

verus! {

/// A parser: the two tokens that come next, what is still to be read behind them, and what has
/// been gathered on the way.
pub struct Parser {
    /// What is still to be read, last item first.
    tokens: Vec<LexResult>,
    lex_errors: Vec<LexicalError>,
    tok0: Option<Spanned>,
    tok1: Option<Spanned>,
    extra: ModuleExtra,
    /// All that was there to read.
    input: Ghost<Seq<LexResult>>,
    /// How many tokens lie behind.
    at: Ghost<nat>,
}

/// What a parser holds, apart from the input and its place in it.
pub struct Held {
    pub tok0: Option<Spanned>,
    pub tok1: Option<Spanned>,
    pub rest: Seq<LexResult>,
    pub lex_errors: Seq<LexicalError>,
    pub extra: ExtraView,
}

/// What a parser holds at a place in an input: the two tokens that come next, what is left to be
/// read behind them, and what has been gathered up to the second of them.
#[verifier::opaque]
pub open spec fn held_at(input: Seq<LexResult>, c: Cursor) -> Held {
    let read = read_for(input, c.at + 2) as int;
    Held {
        tok0: peek(stream(input), c),
        tok1: peek_second(stream(input), c),
        rest: input.skip(read),
        lex_errors: lex_errors(input.take(read)),
        extra: extra_of(input.take(read)),
    }
}

/// Two parsers at the same place in the same input hold the same. So a parser that looks for
/// something, finds nothing and stays at its place is as it was before.
pub proof fn a_place_fixes_the_parser(a: Parser, b: Parser)
    requires
        a.wf(),
        b.wf(),
        a.input() == b.input(),
        a.cursor() == b.cursor(),
    ensures
        a.held() == b.held(),
        a.gathered() == b.gathered(),
{
}

proof fn lemma_one_read(t: Toks, count: nat, tok: Option<Spanned>, rest: Toks)
    requires
        count <= t.len(),
        t.skip(count as int) == seq![tok] + rest,
    ensures
        count < t.len(),
        t[count as int] == tok,
        t.skip(count as int + 1) == rest,
{
    assert((seq![tok] + rest).len() == rest.len() + 1);
    assert(t.skip(count as int)[0] == t[count as int]);
    assert(rest =~= (seq![tok] + rest).drop_first());
    assert(t.skip(count as int).drop_first() =~= t.skip(count as int + 1));
}

/// Whether a parser has got to a place, from one before it in the same input. Where it stays at its
/// place it stays as it is (see [`a_place_fixes_the_parser`]).
pub open spec fn arrived(before: Parser, after: Parser, to: Cursor) -> bool {
    &&& after.wf()
    &&& after.input() == before.input()
    &&& after.cursor() == to
    &&& before.cursor().at <= to.at
}

/// Whether a parser has done a step of the grammar. A token is given up only at an error.
pub open spec fn did<A: DeepView>(
    before: Parser,
    after: Parser,
    result: Result<A, ParseError>,
    step: Step<A::V>,
) -> bool {
    &&& arrived(before, after, step.to)
    &&& outcome(result) == step.res
    &&& result is Ok && !before.cursor().lost ==> !after.cursor().lost
}

/// Whether a parser has done a step of the grammar, and got ahead if it found something.
pub open spec fn did_find<A: DeepView>(
    before: Parser,
    after: Parser,
    result: Result<Option<A>, ParseError>,
    step: Step<Option<A::V>>,
) -> bool {
    &&& did(before, after, result, step)
    &&& result matches Ok(Some(_)) ==> before.cursor().at < after.cursor().at
}

/// Whether a parser is at the same place as another one in the same input, or behind it, and no
/// token has been given up in between.
pub open spec fn behind(before: Parser, after: Parser) -> bool {
    &&& after.wf()
    &&& after.input() == before.input()
    &&& before.cursor().at <= after.cursor().at
    &&& !before.cursor().lost ==> !after.cursor().lost
}

impl Parser {
    /// All that was there to read.
    pub closed spec fn input(self) -> Seq<LexResult> {
        self.input@
    }

    /// The tokens of the input.
    pub open spec fn toks(self) -> Toks {
        stream(self.input())
    }

    /// The place in the stream of tokens.
    pub closed spec fn cursor(self) -> Cursor {
        Cursor {
            at: self.at@,
            lost: self.tok0 is None && token_at(self.toks(), self.at@ as int) is Some,
        }
    }

    /// How many tokens lie ahead.
    pub open spec fn ahead(self) -> nat {
        ahead(self.toks(), self.cursor())
    }

    /// How many items of the input have been read.
    closed spec fn read(self) -> int {
        self.input@.len() - self.tokens@.len()
    }

    /// What the parser holds.
    pub closed spec fn held(self) -> Held {
        Held {
            tok0: self.tok0,
            tok1: self.tok1,
            rest: self.tokens@.reverse(),
            lex_errors: self.lex_errors@,
            extra: self.extra@,
        }
    }

    /// Whether the first `count` tokens of the input have been read and all that stands before and
    /// between them has been gathered, but nothing behind them.
    closed spec fn has_read(self, count: nat) -> bool {
        &&& self.has_read_towards(count)
        &&& self.read() == read_for(self.input@, count)
    }

    /// Whether the first `count` tokens of the input have been read, and possibly comments and
    /// blank lines behind them.
    closed spec fn has_read_towards(self, count: nat) -> bool {
        let t = self.toks();
        &&& spans_ok(self.input@)
        &&& self.tokens@.len() <= self.input@.len()
        &&& forall|i: int|
            0 <= i < self.tokens@.len() ==> #[trigger] self.tokens@[i]
                == self.input@[self.input@.len() - 1 - i]
        &&& self.lex_errors@ == lex_errors(self.input@.take(self.read()))
        &&& self.extra@ == extra_of(self.input@.take(self.read()))
        &&& count <= t.len() ==> stream(self.input@.skip(self.read())) == t.skip(count as int)
        &&& count > t.len() ==> self.tokens@.len() == 0
    }

    /// Whether the parser is at a place in its input. All that it holds is fixed by the two.
    pub open spec fn wf(self) -> bool {
        &&& self.fields_fit()
        &&& self.held() == held_at(self.input(), self.cursor())
        &&& self.cursor().at <= self.toks().len()
        &&& toks_ok(self.toks())
    }

    /// Whether the parser's fields fit each other.
    pub closed spec fn fields_fit(self) -> bool {
        &&& self.has_read(self.at@ + 2)
        &&& self.at@ <= self.toks().len()
        &&& self.tok1 == token_at(self.toks(), self.at@ as int + 1)
        &&& self.tok0 is Some ==> self.tok0 == token_at(self.toks(), self.at@ as int)
    }

    proof fn lemma_held(self)
        requires
            self.fields_fit(),
        ensures
            self.held() == held_at(self.input(), self.cursor()),
    {
        reveal(held_at);
        assert(self.held().rest =~= self.input@.skip(self.read()));
    }

    /// Reads up to the next token and gathers what stands before it.
    fn read_tok(&mut self, count: Ghost<nat>) -> (tok: Option<Spanned>)
        requires
            old(self).has_read(count@),
        ensures
            final(self).has_read(count@ + 1),
            tok == token_at(old(self).toks(), count@ as int),
            final(self).input@ == old(self).input@,
            final(self).tok0 == old(self).tok0,
            final(self).tok1 == old(self).tok1,
            final(self).at@ == old(self).at@,
    {
        let ghost t = self.toks();
        proof {
            lemma_read_on(self.input@, count@);
        }
        loop
            invariant
                self.has_read_towards(count@),
                self.read() + read_for(self.input@.skip(self.read()), 1) == read_for(
                    self.input@,
                    count@ + 1,
                ),
                self.input@ == old(self).input@,
                self.tok0 == old(self).tok0,
                self.tok1 == old(self).tok1,
                self.at@ == old(self).at@,
                t == self.toks(),
            decreases self.tokens@.len(),
        {
            let ghost input = self.input@;
            let ghost read = self.read();
            let ghost rest = input.skip(read);
            match self.tokens.pop() {
                None => {
                    assert(rest.len() == 0);
                    assert(stream(rest).len() == 0);
                    assert(count@ <= t.len() ==> t.skip(count@ as int).len() == 0);
                    return None;
                },
                Some(item) => {
                    proof {
                        assert(item == input[read]);
                        assert(rest[0] == item);
                        assert(rest.drop_first() =~= input.skip(read + 1));
                        assert(read_for(rest.drop_first(), 0) == 0);
                        assert(input.take(read + 1).drop_last() =~= input.take(read));
                        assert(input.take(read + 1).last() == item);
                    }
                    match item {
                        // gather and skip extra
                        Ok((start, Tok::EmptyLine, _)) => {
                            self.extra.empty_lines.push(start);
                        },
                        Ok((start, Tok::CommentNormal, end)) => {
                            self.extra.comments.push(SrcSpan { start, end });
                        },
                        Ok((start, Tok::CommentDoc, end)) => {
                            self.extra.doc_comments.push(SrcSpan { start, end });
                        },
                        Ok((start, Tok::CommentModule, end)) => {
                            self.extra.module_comments.push(SrcSpan { start, end });
                        },
                        // a gap at a lexical error
                        Err(error) => {
                            self.lex_errors.push(error);
                            proof {
                                lemma_one_read(t, count@, None, stream(rest.drop_first()));
                            }
                            return None;
                        },
                        Ok(tok) => {
                            proof {
                                lemma_one_read(t, count@, Some(tok), stream(rest.drop_first()));
                            }
                            return Some(tok);
                        },
                    }
                },
            }
        }
    }

    /// A parser at the start of an input.
    pub fn new(input: Vec<LexResult>) -> (parser: Parser)
        requires
            spans_ok(input@),
        ensures
            parser.wf(),
            parser.input() == input@,
            parser.cursor() == (Cursor { at: 0, lost: false }),
            parser.gathered() == extra_of(input@.take(read_for(input@, 2) as int)),
    {
        let ghost all = input@;
        proof {
            lemma_stream_ok(all);
        }
        let mut input = input;
        let mut tokens: Vec<LexResult> = Vec::new();
        loop
            invariant
                input@.len() + tokens@.len() == all.len(),
                input@ == all.take(input@.len() as int),
                forall|i: int|
                    0 <= i < tokens@.len() ==> #[trigger] tokens@[i] == all[all.len() - 1 - i],
            ensures
                tokens@.len() == all.len(),
                forall|i: int|
                    0 <= i < tokens@.len() ==> #[trigger] tokens@[i] == all[all.len() - 1 - i],
            decreases input@.len(),
        {
            match input.pop() {
                Some(item) => {
                    tokens.push(item);
                },
                None => {
                    break ;
                },
            }
        }
        let mut parser = Parser {
            tokens,
            lex_errors: Vec::new(),
            tok0: None,
            tok1: None,
            extra: ModuleExtra::new(),
            input: Ghost(all),
            at: Ghost(0),
        };
        proof {
            assert(all.take(0) =~= Seq::empty());
            assert(all.skip(0) =~= all);
            assert(stream(all).skip(0) =~= stream(all));
        }
        parser.tok0 = parser.read_tok(Ghost(0));
        parser.tok1 = parser.read_tok(Ghost(1));
        proof {
            parser.lemma_held();
        }
        parser
    }

    /// The comments and blank lines that have been met.
    pub closed spec fn gathered(self) -> ExtraView {
        self.extra@
    }

    proof fn lemma_lex_errors(self)
        requires
            self.wf(),
        ensures
            first_lex_error(self.input(), self.cursor().at + 2) == (if self.lex_errors@.len() == 0 {
                None
            } else {
                Some(self.lex_errors@[0])
            }),
    {
        let input = self.input@;
        let part = input.take(self.read());
        let rest = input.skip(self.read());
        assert(part + rest =~= input);
        lemma_stream_add(part, rest);
        lemma_first_lex_error(part, rest);
        if self.at@ + 2 > self.toks().len() {
            assert(rest =~= Seq::empty());
            lemma_first_lex_error_all(input, self.at@ + 2);
        }
    }

    proof fn lemma_all_read(self)
        requires
            self.wf(),
            self.lex_errors@.len() == 0,
            !self.cursor().lost,
            peek(self.toks(), self.cursor()) is None,
        ensures
            self.cursor().at == self.toks().len(),
            self.gathered() == extra_of(self.input()),
    {
        let input = self.input@;
        let part = input.take(self.read());
        let rest = input.skip(self.read());
        assert(part + rest =~= input);
        lemma_stream_add(part, rest);
        lemma_no_gaps(part);
        if self.at@ < self.toks().len() {
            assert(stream(part)[self.at@ as int] == self.toks()[self.at@ as int]);
        }
        assert(rest =~= Seq::empty());
        assert(part =~= input);
    }

    /// Parses a module.
    fn parse_module(&mut self) -> (result: Result<Module, ParseError>)
        requires
            old(self).wf(),
            !old(self).cursor().lost,
        ensures
            outcome(result) == checked(
                old(self).input(),
                definitions(old(self).toks(), old(self).cursor()),
            ),
            result is Ok ==> final(self).gathered() == extra_of(old(self).input()),
    {
        let parser = |p: &mut Parser| -> (found: Result<Option<Statement>, ParseError>)
            requires
                p.wf(),
            ensures
                did_find(*old(p), *final(p), found, statement(old(p).toks(), old(p).cursor())),
            { p.parse_statement() };
        let statements = self.series_of(&parser, None, Ghost(statement_in(self.toks())));
        let statements = self.ensure_no_errors(statements)?;
        let module = Module { name: vec![], documentation: vec![], type_info: (), statements };
        assert(module.name.deep_view() =~= Seq::empty());
        assert(module.documentation.deep_view() =~= Seq::empty());
        Ok(module)
    }

    // The parser does not stop at a lexical error: the errors are collected in `self.lex_errors`
    // and parsing goes on. Once it is done an error is surfaced in the order:
    // 1) LexError, 2) ParseError, 3) More Tokens Left
    fn ensure_no_errors<A: DeepView>(&mut self, parse_result: Result<A, ParseError>) -> (result:
        Result<A, ParseError>)
        requires
            old(self).wf(),
            parse_result is Ok ==> !old(self).cursor().lost,
        ensures
            outcome(result) == checked(
                old(self).input(),
                (Step { res: outcome(parse_result), to: old(self).cursor() }),
            ),
            result is Ok ==> final(self).gathered() == extra_of(old(self).input()),
    {
        proof {
            self.lemma_lex_errors();
        }
        if self.lex_errors.len() > 0 {
            // Lex errors first
            let error = self.lex_errors.remove(0);
            let location = error.location;
            parse_error(
                ParseErrorType::LexError { error },
                SrcSpan { start: location, end: location },
            )
        } else if parse_result.is_err() {
            // Then parse errors
            parse_result
        } else if let Some((start, _, end)) = self.next_tok() {
            // there are still more tokens
            let expected = vec!["An import, const, type, or function.".to_string()];
            assert(expected.deep_view() =~= seq!["An import, const, type, or function."@]);
            parse_error(ParseErrorType::UnexpectedToken { expected }, SrcSpan { start, end })
        } else {
            // no errors
            proof {
                old(self).lemma_all_read();
                self.lemma_lex_errors();
                lemma_first_lex_error_all(self.input(), old(self).cursor().at + 2);
                self.lemma_all_read();
            }
            parse_result
        }
    }

    /// Moves behind the next token, which is handed out.
    fn next_tok(&mut self) -> (tok: Option<Spanned>)
        requires
            old(self).wf(),
        ensures
            tok == peek(old(self).toks(), old(self).cursor()),
            arrived(*old(self), *final(self), next(old(self).toks(), old(self).cursor())),
    {
        let ghost t = self.toks();
        let ghost at = self.at@;
        let tok = self.tok0.take();
        let nxt = self.read_tok(Ghost(self.at@ + 2));
        self.tok0 = self.tok1.take();
        self.tok1 = nxt;
        proof {
            if at < t.len() {
                self.at@ = at + 1;
            }
            self.lemma_held();
        }
        tok
    }

    /// Takes the next token out, without moving behind it.
    fn take_tok(&mut self) -> (tok: Option<Spanned>)
        requires
            old(self).wf(),
        ensures
            tok == peek(old(self).toks(), old(self).cursor()),
            arrived(
                *old(self),
                *final(self),
                if tok is Some {
                    give_up(old(self).cursor())
                } else {
                    old(self).cursor()
                },
            ),
    {
        let tok = self.tok0.take();
        proof {
            self.lemma_held();
        }
        tok
    }

    /// Puts a token back that was taken out.
    fn put_back(&mut self, tok: Option<Spanned>)
        requires
            old(self).wf(),
            tok is Some ==> tok == token_at(old(self).toks(), old(self).cursor().at as int),
        ensures
            arrived(
                *old(self),
                *final(self),
                if tok is Some {
                    Cursor { at: old(self).cursor().at, lost: false }
                } else {
                    old(self).cursor()
                },
            ),
    {
        if tok.is_some() {
            self.tok0 = tok;
        }
        proof {
            self.lemma_held();
        }
    }

    /// The token after the next one.
    fn second(&self) -> (tok: Option<&Tok>)
        requires
            self.wf(),
        ensures
            match peek_second(self.toks(), self.cursor()) {
                Some(spanned) => tok == Some(&spanned.1),
                None => tok is None,
            },
    {
        match &self.tok1 {
            Some(spanned) => Some(&spanned.1),
            None => None,
        }
    }

    /// Fails at the next token, or at the end of the tokens.
    fn next_tok_unexpected<A: DeepView>(&mut self, expected: Vec<String>) -> (result: Result<
        A,
        ParseError,
    >)
        requires
            old(self).wf(),
        ensures
            did(
                *old(self),
                *final(self),
                result,
                unexpected(old(self).toks(), old(self).cursor(), expected.deep_view()),
            ),
    {
        match self.next_tok() {
            None => parse_error(ParseErrorType::UnexpectedEOF, SrcSpan { start: 0, end: 0 }),
            Some((start, _, end)) => parse_error(
                ParseErrorType::UnexpectedToken { expected },
                SrcSpan { start, end },
            ),
        }
    }

    /// If the next token is the wanted one, moves behind it and returns its offsets.
    fn maybe_one(&mut self, tok: &Tok) -> (offsets: Option<(usize, usize)>)
        requires
            old(self).wf(),
        ensures
            offsets == one(old(self).toks(), old(self).cursor(), *tok),
            arrived(
                *old(self),
                *final(self),
                skip_one(old(self).toks(), old(self).cursor(), *tok),
            ),
            offsets is None ==> final(self).held() == old(self).held(),
    {
        match self.take_tok() {
            Some((s, t, e)) => {
                if t == *tok {
                    let _ = self.next_tok();
                    Some((s, e))
                } else {
                    self.put_back(Some((s, t, e)));
                    None
                }
            },
            None => None,
        }
    }

    /// Moves behind the wanted token, or fails.
    fn expect_one(&mut self, wanted: &Tok) -> (result: Result<(usize, usize), ParseError>)
        requires
            old(self).wf(),
        ensures
            did(
                *old(self),
                *final(self),
                result,
                expect_one(old(self).toks(), old(self).cursor(), *wanted),
            ),
    {
        match self.maybe_one(wanted) {
            Some((start, end)) => Ok((start, end)),
            None => {
                let expected = vec![wanted.quoted()];
                assert(expected.deep_view() =~= seq![crate::token::quoted(*wanted)]);
                self.next_tok_unexpected(expected)
            },
        }
    }

    /// Moves behind a name that starts with a lower case letter, or fails.
    fn expect_name(&mut self) -> (result: Result<(usize, String, usize), ParseError>)
        requires
            old(self).wf(),
        ensures
            did(
                *old(self),
                *final(self),
                result,
                expect_name(old(self).toks(), old(self).cursor()),
            ),
    {
        match self.next_tok() {
            Some((start, tok, end)) => match tok {
                Tok::Name { name } => Ok((start, name, end)),
                Tok::UpName { .. } => parse_error(
                    ParseErrorType::IncorrectName,
                    SrcSpan { start, end },
                ),
                Tok::DiscardName { .. } => parse_error(
                    ParseErrorType::IncorrectName,
                    SrcSpan { start, end },
                ),
                tok => {
                    if is_reserved_word(tok) {
                        parse_error(
                            ParseErrorType::UnexpectedReservedWord,
                            SrcSpan { start, end },
                        )
                    } else {
                        parse_error(ParseErrorType::ExpectedName, SrcSpan { start, end })
                    }
                },
            },
            None => parse_error(ParseErrorType::UnexpectedEOF, SrcSpan { start: 0, end: 0 }),
        }
    }

    /// Moves behind a name that starts with an upper case letter, or fails.
    fn expect_upname(&mut self) -> (result: Result<(usize, String, usize), ParseError>)
        requires
            old(self).wf(),
        ensures
            did(
                *old(self),
                *final(self),
                result,
                expect_upname(old(self).toks(), old(self).cursor()),
            ),
    {
        match self.next_tok() {
            Some((start, tok, end)) => match tok {
                Tok::Name { .. } => parse_error(
                    ParseErrorType::IncorrectUpName,
                    SrcSpan { start, end },
                ),
                Tok::UpName { name } => Ok((start, name, end)),
                Tok::DiscardName { .. } => parse_error(
                    ParseErrorType::IncorrectUpName,
                    SrcSpan { start, end },
                ),
                _ => parse_error(ParseErrorType::ExpectedUpName, SrcSpan { start, end }),
            },
            None => parse_error(ParseErrorType::UnexpectedEOF, SrcSpan { start: 0, end: 0 }),
        }
    }

    /// Moves behind a string literal, or fails.
    fn expect_string(&mut self) -> (result: Result<(usize, String, usize), ParseError>)
        requires
            old(self).wf(),
        ensures
            did(
                *old(self),
                *final(self),
                result,
                expect_string(old(self).toks(), old(self).cursor()),
            ),
    {
        match self.next_tok() {
            Some((start, Tok::String { value }, end)) => Ok((start, value, end)),
            _ => {
                let expected = vec!["a string".to_string()];
                assert(expected.deep_view() =~= seq!["a string"@]);
                self.next_tok_unexpected(expected)
            },
        }
    }

    /// If the next token is a name that starts with a lower case letter, moves behind it.
    fn maybe_name(&mut self) -> (name: Option<(usize, String, usize)>)
        requires
            old(self).wf(),
        ensures
            name.deep_view() == maybe_name(old(self).toks(), old(self).cursor()),
            arrived(
                *old(self),
                *final(self),
                if name is Some {
                    next(old(self).toks(), old(self).cursor())
                } else {
                    old(self).cursor()
                },
            ),
    {
        match self.take_tok() {
            Some((s, Tok::Name { name }, e)) => {
                let _ = self.next_tok();
                Some((s, name, e))
            },
            t0 => {
                self.put_back(t0);
                None
            },
        }
    }

    /// If the next token is a name that starts with an upper case letter, moves behind it.
    fn maybe_upname(&mut self) -> (name: Option<(usize, String, usize)>)
        requires
            old(self).wf(),
        ensures
            name.deep_view() == maybe_upname(old(self).toks(), old(self).cursor()),
            arrived(
                *old(self),
                *final(self),
                if name is Some {
                    next(old(self).toks(), old(self).cursor())
                } else {
                    old(self).cursor()
                },
            ),
    {
        match self.take_tok() {
            Some((s, Tok::UpName { name }, e)) => {
                let _ = self.next_tok();
                Some((s, name, e))
            },
            t0 => {
                self.put_back(t0);
                None
            },
        }
    }

    /// If the next token is a name that starts with an underscore, moves behind it.
    fn maybe_discard_name(&mut self) -> (name: Option<(usize, String, usize)>)
        requires
            old(self).wf(),
        ensures
            name.deep_view() == maybe_discard_name(old(self).toks(), old(self).cursor()),
            arrived(
                *old(self),
                *final(self),
                if name is Some {
                    next(old(self).toks(), old(self).cursor())
                } else {
                    old(self).cursor()
                },
            ),
    {
        match self.take_tok() {
            Some((s, Tok::DiscardName { name }, e)) => {
                let _ = self.next_tok();
                Some((s, name, e))
            },
            t0 => {
                self.put_back(t0);
                None
            },
        }
    }

    /// The values that a parser finds one after another, with a separator between them, if there
    /// is one.
    fn series_of<A: DeepView>(
        &mut self,
        parser: &impl Fn(&mut Parser) -> Result<Option<A>, ParseError>,
        sep: Option<&Tok>,
        Ghost(p): Ghost<spec_fn(Cursor) -> Step<Option<A::V>>>,
    ) -> (result: Result<Vec<A>, ParseError>)
        requires
            old(self).wf(),
            forall|x: &mut Parser|
                behind(*old(self), *x) ==> #[trigger] call_requires(*parser, (x,)),
            forall|x: &mut Parser, found: Result<Option<A>, ParseError>|
                behind(*old(self), *x) && #[trigger] call_ensures(*parser, (x,), found)
                    ==> did_find(*x, *final(x), found, p(x.cursor())),
        ensures
            did(
                *old(self),
                *final(self),
                result,
                series(
                    p,
                    old(self).toks(),
                    match sep {
                        Some(tok) => Some(*tok),
                        None => None,
                    },
                    Seq::empty(),
                    old(self).cursor(),
                ),
            ),
    {
        let mut results: Vec<A> = Vec::new();
        let ghost t = self.toks();
        let ghost tok: Option<Tok> = match sep {
            Some(tok) => Some(*tok),
            None => None,
        };
        let ghost whole = series(p, t, tok, Seq::empty(), self.cursor());
        assert(results.deep_view() =~= Seq::empty());
        loop
            invariant
                tok == (match sep {
                    Some(tok) => Some(*tok),
                    None => None,
                }),
                self.wf(),
                behind(*old(self), *self),
                t == self.toks(),
                forall|x: &mut Parser|
                    behind(*old(self), *x) ==> #[trigger] call_requires(*parser, (x,)),
                forall|x: &mut Parser, found: Result<Option<A>, ParseError>|
                    behind(*old(self), *x) && #[trigger] call_ensures(*parser, (x,), found)
                        ==> did_find(*x, *final(x), found, p(x.cursor())),
                whole == series(p, t, tok, results.deep_view(), self.cursor()),
                whole == series(p, old(self).toks(), tok, Seq::empty(), old(self).cursor()),
            decreases self.ahead(),
        {
            let ghost before = results.deep_view();
            match parser(self)? {
                None => {
                    return Ok(results);
                },
                Some(value) => {
                    results.push(value);
                    assert(results.deep_view() =~= before.push(value.deep_view()));
                    match sep {
                        None => {},
                        Some(sep) => {
                            if self.maybe_one(sep).is_none() {
                                return Ok(results);
                            }
                            // Helpful error if extra separator
                            if let Some((start, end)) = self.maybe_one(sep) {
                                return parse_error(
                                    ParseErrorType::ExtraSeparator,
                                    SrcSpan { start, end },
                                );
                            }
                        },
                    }
                },
            }
        }
    }
}

/// Parses the tokens of a module. Gives its tree, and its comments and blank lines.
pub fn parse_module(tokens: Vec<LexResult>) -> (result: Result<(Module, ModuleExtra), ParseError>)
    requires
        spans_ok(tokens@),
    ensures
        match result {
            Ok((module, extra)) => {
                &&& module_of(tokens@) == Ok::<ModuleView, ErrorView>(module.deep_view())
                &&& extra@ == extra_of(tokens@)
            },
            Err(error) => module_of(tokens@) == Err::<ModuleView, ErrorView>(error.deep_view()),
        },
{
    let mut parser = Parser::new(tokens);
    let module = parser.parse_module()?;
    Ok((module, parser.extra))
}

/// Parses the tokens of a sequence of expressions.
pub fn parse_expression_sequence(tokens: Vec<LexResult>) -> (result: Result<
    UntypedExpr,
    ParseError,
>)
    requires
        spans_ok(tokens@),
    ensures
        outcome(result) == expression_of(tokens@),
{
    let mut parser = Parser::new(tokens);
    let expr = parser.parse_expression_seq();
    let expr = parser.ensure_no_errors(expr)?;
    if let Some((e, _)) = expr {
        Ok(e)
    } else {
        parse_error(ParseErrorType::ExpectedExpr, SrcSpan { start: 0, end: 0 })
    }
}

/// Whether a token is a keyword, which is useful where one stands in place of a name.
fn is_reserved_word(tok: Tok) -> (is: bool)
    ensures
        is == reserved(tok),
{
    matches!(
        tok,
        Tok::As
            | Tok::Assert
            | Tok::Case
            | Tok::Const
            | Tok::External
            | Tok::Fn
            | Tok::If
            | Tok::Import
            | Tok::Let
            | Tok::Opaque
            | Tok::Pub
            | Tok::Todo
            | Tok::Try
            | Tok::Tuple
            | Tok::Type
    )
}

} // verus!
