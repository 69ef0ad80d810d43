//! Parsing of the clauses of case expressions.

use crate::ast::{Clause, Pattern, SrcSpan};
use crate::error::{parse_error, ParseError, ParseErrorType};
use crate::grammar::exprs::{alternatives, case_clause};
use crate::location::HasLocation;
use crate::parser::{behind, did, did_find, Parser};
use crate::token::Tok;
use vstd::prelude::*;

verus! {

impl Parser {
    // examples:
    //   pattern -> expr
    //   pattern, pattern if guard -> expr
    //   pattern, pattern | pattern, pattern if guard -> expr
    pub(crate) fn parse_case_clause(&mut self) -> (result: Result<Option<Clause>, ParseError>)
        requires
            old(self).wf(),
        ensures
            did_find(
                *old(self),
                *final(self),
                result,
                case_clause(old(self).toks(), old(self).cursor()),
            ),
        decreases old(self).ahead(), 4nat,
    {
        let pattern = self.parse_patterns()?;
        if pattern.len() == 0 {
            return Ok(None);
        }
        assert(pattern.deep_view()[0] == pattern@[0].deep_view());
        let start = pattern[0].location().start;
        let alternative_patterns = self.parse_alternative_patterns()?;
        let guard = self.parse_case_clause_guard(false)?;
        let (arr_s, arr_e) = self.expect_one(&Tok::RArrow)?;
        if let Some(body) = self.parse_expression()? {
            Ok(
                Some(
                    Clause {
                        location: SrcSpan { start, end: body.location().end },
                        pattern,
                        alternative_patterns,
                        guard,
                        then: body,
                    },
                ),
            )
        } else {
            parse_error(ParseErrorType::ExpectedExpr, SrcSpan { start: arr_s, end: arr_e })
        }
    }

    // Patterns after "|", any number of times
    fn parse_alternative_patterns(&mut self) -> (result: Result<Vec<Vec<Pattern>>, ParseError>)
        requires
            old(self).wf(),
        ensures
            did(
                *old(self),
                *final(self),
                result,
                alternatives(old(self).toks(), old(self).cursor(), Seq::empty()),
            ),
    {
        let mut alternative_patterns: Vec<Vec<Pattern>> = vec![];
        let ghost t = self.toks();
        let ghost whole = alternatives(t, self.cursor(), Seq::empty());
        assert(alternative_patterns.deep_view() =~= Seq::empty());
        loop
            invariant
                behind(*old(self), *self),
                t == old(self).toks(),
                whole == alternatives(t, self.cursor(), alternative_patterns.deep_view()),
                whole == alternatives(t, old(self).cursor(), Seq::empty()),
            decreases self.ahead(),
        {
            let ghost before = alternative_patterns.deep_view();
            if self.maybe_one(&Tok::Vbar).is_none() {
                return Ok(alternative_patterns);
            }
            let patterns = self.parse_patterns()?;
            alternative_patterns.push(patterns);
            assert(alternative_patterns.deep_view() =~= before.push(patterns.deep_view()));
        }
    }
}

} // verus!
