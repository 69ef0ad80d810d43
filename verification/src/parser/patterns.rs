//! Parsing of patterns.

use crate::ast::{BitStringSegment, CallArg, Pattern, SrcSpan};
use crate::error::{parse_error, ParseError, ParseErrorType};
use crate::grammar::patterns::{
    bare_pattern, bit_string_pattern, constructor_arg, constructor_arg_from, constructor_args,
    constructor_pattern, list_of, list_pattern, pattern, pattern_from, pattern_number,
    pattern_segment, pattern_segment_arg, pattern_segment_arg_in, pattern_segment_from, patterns,
    starting_at, tail_pattern, tuple_pattern,
};
use crate::location::HasLocation;
use crate::model::{
    pattern_args_view_is_deep_view, pattern_segments_view_is_deep_view, patterns_view_is_deep_view,
    PatternView,
};
use crate::parser::{did, did_find, Parser};
use crate::token::Tok;
use vstd::prelude::*;

verus! {

impl Parser {
    // The left side of an "=" or a "->"
    pub(crate) fn parse_pattern(&mut self) -> (result: Result<Option<Pattern>, ParseError>)
        requires
            old(self).wf(),
        ensures
            did_find(
                *old(self),
                *final(self),
                result,
                pattern(old(self).toks(), old(self).cursor()),
            ),
        decreases old(self).ahead(), 2nat,
    {
        match self.parse_bare_pattern()? {
            None => Ok(None),
            Some(pattern) => {
                if self.maybe_one(&Tok::As).is_some() {
                    let (_, name, _) = self.expect_name()?;
                    Ok(Some(Pattern::Let { name, pattern: Box::new(pattern) }))
                } else {
                    Ok(Some(pattern))
                }
            },
        }
    }

    // A pattern without a name after "as"
    fn parse_bare_pattern(&mut self) -> (result: Result<Option<Pattern>, ParseError>)
        requires
            old(self).wf(),
        ensures
            did_find(
                *old(self),
                *final(self),
                result,
                bare_pattern(old(self).toks(), old(self).cursor()),
            ),
        decreases old(self).ahead(), 1nat,
    {
        match self.take_tok() {
            // Pattern::Var or Pattern::Constructor start
            Some((start, Tok::Name { name }, end)) => {
                let _ = self.next_tok();
                if self.maybe_one(&Tok::Dot).is_some() {
                    Ok(Some(self.expect_constructor_pattern(Some((start, name, end)))?))
                } else {
                    Ok(Some(Pattern::Var { location: SrcSpan { start, end }, name }))
                }
            },
            // Constructor
            Some((start, Tok::UpName { name }, end)) => {
                self.put_back(Some((start, Tok::UpName { name }, end)));
                Ok(Some(self.expect_constructor_pattern(None)?))
            },
            Some((start, Tok::DiscardName { name }, end)) => {
                let _ = self.next_tok();
                Ok(Some(Pattern::Discard { location: SrcSpan { start, end }, name }))
            },
            Some((start, Tok::String { value }, end)) => {
                let _ = self.next_tok();
                Ok(Some(Pattern::String { location: SrcSpan { start, end }, value }))
            },
            Some((start, Tok::Int { value }, end)) => {
                let _ = self.next_tok();
                Ok(Some(Pattern::Int { location: SrcSpan { start, end }, value }))
            },
            Some((start, Tok::Float { value }, end)) => {
                let _ = self.next_tok();
                Ok(Some(Pattern::Float { location: SrcSpan { start, end }, value }))
            },
            Some((start, Tok::ListNil, end)) => {
                let _ = self.next_tok();
                Ok(Some(Pattern::Nil { location: SrcSpan { start, end } }))
            },
            Some((start, Tok::Tuple, _)) => {
                let _ = self.next_tok();
                Ok(Some(self.expect_tuple_pattern(start)?))
            },
            // Bitstring
            Some((start, Tok::LtLt, _)) => {
                let _ = self.next_tok();
                Ok(Some(self.expect_bit_string_pattern(start)?))
            },
            // List
            Some((start, Tok::Lsqb, _)) => {
                let _ = self.next_tok();
                Ok(Some(self.expect_list_pattern(start)?))
            },
            // No pattern
            t0 => {
                self.put_back(t0);
                Ok(None)
            },
        }
    }

    // Starts after "tuple"
    fn expect_tuple_pattern(&mut self, start: usize) -> (result: Result<Pattern, ParseError>)
        requires
            old(self).wf(),
        ensures
            did(
                *old(self),
                *final(self),
                result,
                tuple_pattern(old(self).toks(), old(self).cursor(), start),
            ),
        decreases old(self).ahead(), 5nat,
    {
        let _ = self.expect_one(&Tok::Lpar)?;
        let elems = self.parse_patterns()?;
        proof {
            patterns_view_is_deep_view(elems);
        }
        let (_, end) = self.expect_one(&Tok::Rpar)?;
        Ok(Pattern::Tuple { location: SrcSpan { start, end }, elems })
    }

    // Starts after "<<"
    fn expect_bit_string_pattern(&mut self, start: usize) -> (result: Result<Pattern, ParseError>)
        requires
            old(self).wf(),
        ensures
            did(
                *old(self),
                *final(self),
                result,
                bit_string_pattern(old(self).toks(), old(self).cursor(), start),
            ),
        decreases old(self).ahead(), 5nat,
    {
        let ghost n = self.ahead();
        let parser = |p: &mut Parser| -> (found: Result<
            Option<BitStringSegment<Pattern>>,
            ParseError,
        >)
            requires
                p.wf(),
                p.ahead() <= n,
            ensures
                did_find(
                    *old(p),
                    *final(p),
                    found,
                    pattern_segment(old(p).toks(), old(p).cursor()),
                ),
            { p.parse_pattern_segment() };
        let segments = self.series_of(
            &parser,
            Some(&Tok::Comma),
            Ghost(pattern_segment_from(self.toks(), self.cursor())),
        )?;
        proof {
            pattern_segments_view_is_deep_view(segments);
        }
        let (_, end) = self.expect_one(&Tok::GtGt)?;
        Ok(Pattern::BitString { location: SrcSpan { start, end }, segments })
    }

    // A segment of a bit string
    fn parse_pattern_segment(&mut self) -> (result: Result<
        Option<BitStringSegment<Pattern>>,
        ParseError,
    >)
        requires
            old(self).wf(),
        ensures
            did_find(
                *old(self),
                *final(self),
                result,
                pattern_segment(old(self).toks(), old(self).cursor()),
            ),
        decreases old(self).ahead(), 4nat,
    {
        let ghost n = self.ahead();
        let value_parser = |p: &mut Parser| -> (found: Result<Option<Pattern>, ParseError>)
            requires
                p.wf(),
                p.ahead() <= n,
            ensures
                did_find(*old(p), *final(p), found, pattern(old(p).toks(), old(p).cursor())),
            { p.parse_pattern() };
        let arg_parser = |p: &mut Parser| -> (found: Result<Pattern, ParseError>)
            requires
                p.wf(),
            ensures
                did(
                    *old(p),
                    *final(p),
                    found,
                    pattern_segment_arg(old(p).toks(), old(p).cursor()),
                ),
            { p.expect_bit_string_pattern_segment_arg() };
        self.parse_bit_string_segment(
            &value_parser,
            &arg_parser,
            &bit_string_pattern_int,
            Ghost(pattern_from(self.toks(), self.cursor())),
            Ghost(pattern_segment_arg_in(self.toks())),
            Ghost(pattern_number()),
        )
    }

    // Starts after "["
    fn expect_list_pattern(&mut self, start: usize) -> (result: Result<Pattern, ParseError>)
        requires
            old(self).wf(),
        ensures
            did(
                *old(self),
                *final(self),
                result,
                list_pattern(old(self).toks(), old(self).cursor(), start),
            ),
        decreases old(self).ahead(), 5nat,
    {
        let elems = self.parse_patterns()?;
        let tail = if self.maybe_one(&Tok::DotDot).is_some() {
            let pat = self.parse_pattern()?;
            let _ = self.maybe_one(&Tok::Comma);
            Some(pat)
        } else {
            None
        };
        let (_, rsqb_e) = self.expect_one(&Tok::Rsqb)?;
        let tail_pattern = match tail {
            // There is a tail and it has a Pattern::Var or Pattern::Discard
            Some(Some(Pattern::Var { location, name })) => Pattern::Var { location, name },
            Some(Some(Pattern::Discard { location, name })) => Pattern::Discard { location, name },
            Some(Some(pat)) => {
                return parse_error(ParseErrorType::InvalidTailPattern, pat.location());
            },
            // There is a tail but it has no content, implicit discard
            Some(None) => Pattern::Discard {
                location: SrcSpan { start: rsqb_e - 1, end: rsqb_e },
                name: "_".to_string(),
            },
            // No tail specified
            None => Pattern::Nil { location: SrcSpan { start: rsqb_e - 1, end: rsqb_e } },
        };
        Ok(list_to_pattern(elems, tail_pattern).put_list_cons_location_start(start))
    }

    pub(crate) fn parse_patterns(&mut self) -> (result: Result<Vec<Pattern>, ParseError>)
        requires
            old(self).wf(),
        ensures
            did(
                *old(self),
                *final(self),
                result,
                patterns(old(self).toks(), old(self).cursor()),
            ),
        decreases old(self).ahead(), 4nat,
    {
        let ghost n = self.ahead();
        let parser = |p: &mut Parser| -> (found: Result<Option<Pattern>, ParseError>)
            requires
                p.wf(),
                p.ahead() <= n,
            ensures
                did_find(*old(p), *final(p), found, pattern(old(p).toks(), old(p).cursor())),
            { p.parse_pattern() };
        self.series_of(
            &parser,
            Some(&Tok::Comma),
            Ghost(pattern_from(self.toks(), self.cursor())),
        )
    }

    // examples:
    //   UpName( args )
    fn expect_constructor_pattern(&mut self, module: Option<(usize, String, usize)>) -> (result:
        Result<Pattern, ParseError>)
        requires
            old(self).wf(),
        ensures
            did(
                *old(self),
                *final(self),
                result,
                constructor_pattern(
                    old(self).toks(),
                    old(self).cursor(),
                    match module {
                        Some((start, name, _)) => Some((start, name@)),
                        None => None,
                    },
                ),
            ),
            result is Ok ==> old(self).cursor().at < final(self).cursor().at,
        decreases old(self).ahead(), 0nat,
    {
        let (upname_start, name, upname_end) = self.expect_upname()?;
        let (args, with_spread, end) = self.parse_constructor_pattern_args(upname_end)?;
        proof {
            pattern_args_view_is_deep_view(args);
        }
        let (start, module) = match module {
            Some((start, module, _)) => (start, Some(module)),
            None => (upname_start, None),
        };
        Ok(
            Pattern::Constructor {
                location: SrcSpan { start, end },
                args,
                module,
                name,
                with_spread,
                constructor: (),
            },
        )
    }

    // examples:
    //   ( args )
    fn parse_constructor_pattern_args(&mut self, upname_end: usize) -> (result: Result<
        (Vec<CallArg<Pattern>>, bool, usize),
        ParseError,
    >)
        requires
            old(self).wf(),
        ensures
            did(
                *old(self),
                *final(self),
                result,
                constructor_args(old(self).toks(), old(self).cursor(), upname_end),
            ),
        decreases old(self).ahead(), 5nat,
    {
        if self.maybe_one(&Tok::Lpar).is_some() {
            let ghost n = self.ahead();
            let parser = |p: &mut Parser| -> (found: Result<Option<CallArg<Pattern>>, ParseError>)
                requires
                    p.wf(),
                    p.ahead() <= n,
                ensures
                    did_find(
                        *old(p),
                        *final(p),
                        found,
                        constructor_arg(old(p).toks(), old(p).cursor()),
                    ),
                { p.parse_constructor_pattern_arg() };
            let args = self.series_of(
                &parser,
                Some(&Tok::Comma),
                Ghost(constructor_arg_from(self.toks(), self.cursor())),
            )?;
            let with_spread = self.maybe_one(&Tok::DotDot).is_some();
            if with_spread {
                let _ = self.maybe_one(&Tok::Comma);
            }
            let (_, end) = self.expect_one(&Tok::Rpar)?;
            Ok((args, with_spread, end))
        } else {
            let args: Vec<CallArg<Pattern>> = vec![];
            assert(args.deep_view() =~= Seq::empty());
            Ok((args, false, upname_end))
        }
    }

    // examples:
    //   a: <pattern>
    //   <pattern>
    fn parse_constructor_pattern_arg(&mut self) -> (result: Result<
        Option<CallArg<Pattern>>,
        ParseError,
    >)
        requires
            old(self).wf(),
        ensures
            did_find(
                *old(self),
                *final(self),
                result,
                constructor_arg(old(self).toks(), old(self).cursor()),
            ),
        decreases old(self).ahead(), 3nat,
    {
        match (self.take_tok(), self.second()) {
            // named arg
            (Some((start, Tok::Name { name }, _)), Some(Tok::Colon)) => {
                let _ = self.next_tok();
                match self.next_tok() {
                    Some((col_s, _, col_e)) => {
                        if let Some(value) = self.parse_pattern()? {
                            Ok(
                                Some(
                                    CallArg {
                                        location: SrcSpan { start, end: value.location().end },
                                        label: Some(name),
                                        value,
                                    },
                                ),
                            )
                        } else {
                            parse_error(
                                ParseErrorType::ExpectedPattern,
                                SrcSpan { start: col_s, end: col_e },
                            )
                        }
                    },
                    None => vstd::pervasive::unreached(),
                }
            },
            // unnamed arg
            (t0, _) => {
                self.put_back(t0);
                if let Some(value) = self.parse_pattern()? {
                    Ok(Some(CallArg { location: value.location(), label: None, value }))
                } else {
                    Ok(None)
                }
            },
        }
    }

    fn expect_bit_string_pattern_segment_arg(&mut self) -> (result: Result<Pattern, ParseError>)
        requires
            old(self).wf(),
        ensures
            did(
                *old(self),
                *final(self),
                result,
                pattern_segment_arg(old(self).toks(), old(self).cursor()),
            ),
    {
        match self.next_tok() {
            Some((start, Tok::Name { name }, end)) => Ok(
                Pattern::VarCall { location: SrcSpan { start, end }, name, typ: () },
            ),
            Some((start, Tok::Int { value }, end)) => Ok(
                Pattern::Int { location: SrcSpan { start, end }, value },
            ),
            _ => {
                let expected = vec!["A variable name or an integer".to_string()];
                assert(expected.deep_view() =~= seq!["A variable name or an integer"@]);
                self.next_tok_unexpected(expected)
            },
        }
    }
}

impl Pattern {
    /// A list pattern with at least one element, moved to start at an offset.
    fn put_list_cons_location_start(self, start: usize) -> (pat: Pattern)
        ensures
            pat.deep_view() == starting_at(self.deep_view(), start),
    {
        match self {
            Pattern::Cons { location, head, tail } => Pattern::Cons {
                location: SrcSpan { start, end: location.end },
                head,
                tail,
            },
            pat => pat,
        }
    }
}

proof fn lemma_list_of_push(elements: Seq<PatternView>, last: PatternView, tail: PatternView)
    ensures
        list_of(elements.push(last), tail) == list_of(
            elements,
            PatternView::Cons {
                location: last.location(),
                head: Box::new(last),
                tail: Box::new(tail),
            },
        ),
    decreases elements.len(),
{
    if elements.len() == 0 {
        assert(elements.push(last).drop_first() =~= Seq::empty());
        reveal_with_fuel(list_of, 2);
    } else {
        assert(elements.push(last).drop_first() =~= elements.drop_first().push(last));
        lemma_list_of_push(elements.drop_first(), last, tail);
    }
}

/// The pattern of a list that starts with some elements and goes on with a tail.
fn list_to_pattern(elems: Vec<Pattern>, tail: Pattern) -> (pat: Pattern)
    ensures
        pat.deep_view() == list_of(elems.deep_view(), tail.deep_view()),
{
    let ghost whole = list_of(elems.deep_view(), tail.deep_view());
    let mut rest = elems;
    let mut list = tail;
    loop
        invariant
            list_of(rest.deep_view(), list.deep_view()) == whole,
        ensures
            list.deep_view() == whole,
        decreases rest@.len(),
    {
        let ghost before = rest.deep_view();
        match rest.pop() {
            Some(elem) => {
                proof {
                    assert(before =~= rest.deep_view().push(elem.deep_view()));
                    lemma_list_of_push(rest.deep_view(), elem.deep_view(), list.deep_view());
                }
                list =
                Pattern::Cons {
                    location: elem.location(),
                    head: Box::new(elem),
                    tail: Box::new(list),
                };
            },
            None => {
                break ;
            },
        }
    }
    list
}

/// A number as a pattern.
fn bit_string_pattern_int(value: String, start: usize, end: usize) -> (pat: Pattern)
    ensures
        pat.deep_view() == (pattern_number())(value@, start, end),
{
    Pattern::Int { location: SrcSpan { start, end }, value }
}

} // verus!
