//! Parsing of the guards of case clauses.

use crate::ast::{ClauseGuard, SrcSpan};
use crate::error::{parse_error, ParseError, ParseErrorType};
use crate::grammar::guards::{guard, guard_chain, guard_unit, last_op_span};
use crate::number::parse_decimal;
use crate::operator::{do_reduce_clause_guard, guard_joiner, guard_precedence};
use crate::parser::{behind, did_find, Parser};
use crate::precedence::{handle_op, lemma_last_round, lemma_round, same_trees, tightening, Op};
use crate::token::{Spanned, Tok};
use vstd::prelude::*;

verus! {

impl Parser {
    // examples:
    //   if a
    //   if a < b
    //   if a < b || b < c
    pub(crate) fn parse_case_clause_guard(&mut self, nested: bool) -> (result: Result<
        Option<ClauseGuard>,
        ParseError,
    >)
        requires
            old(self).wf(),
        ensures
            did_find(
                *old(self),
                *final(self),
                result,
                guard(old(self).toks(), old(self).cursor(), nested),
            ),
        decreases old(self).ahead(), 2nat,
    {
        if self.maybe_one(&Tok::If).is_some() || nested {
            self.parse_case_clause_guard_chain()
        } else {
            Ok(None)
        }
    }

    // Starts after "if" or "{"
    fn parse_case_clause_guard_chain(&mut self) -> (result: Result<
        Option<ClauseGuard>,
        ParseError,
    >)
        requires
            old(self).wf(),
        ensures
            did_find(
                *old(self),
                *final(self),
                result,
                guard_chain(
                    old(self).toks(),
                    old(self).cursor(),
                    Seq::empty(),
                    Seq::empty(),
                ),
            ),
        decreases old(self).ahead(), 1nat,
    {
        // uses the simple operator parser algorithm
        let mut opstack: Vec<Op> = vec![];
        let mut estack: Vec<ClauseGuard> = vec![];
        let mut last_op_start: usize = 0;
        let mut last_op_end: usize = 0;
        let ghost t = self.toks();
        let ghost join = guard_joiner();
        let ghost valid = |op: Spanned| guard_precedence(op.1) is Some;
        let ghost mut units = estack.deep_view();
        let ghost mut ops = opstack@;
        let ghost whole = guard_chain(t, self.cursor(), Seq::empty(), Seq::empty());
        assert(units =~= Seq::empty());
        loop
            invariant
                behind(*old(self), *self),
                t == old(self).toks(),
                join == guard_joiner(),
                valid == (|op: Spanned| guard_precedence(op.1) is Some),
                whole == guard_chain(t, self.cursor(), units, ops),
                whole == guard_chain(t, old(self).cursor(), Seq::empty(), Seq::empty()),
                estack@.len() == opstack@.len(),
                units.len() == ops.len(),
                units.len() == 0 <==> estack@.len() == 0,
                tightening(opstack@),
                same_trees(join, estack.deep_view(), opstack@, units, ops),
                forall|i: int| 0 <= i < opstack@.len() ==> valid((#[trigger] opstack@[i]).0),
                last_op_span(ops) == (SrcSpan { start: last_op_start, end: last_op_end }),
                units.len() > 0 ==> old(self).cursor().at < self.cursor().at,
            decreases self.ahead(),
        {
            let ghost stacked = estack.deep_view();
            match self.parse_case_clause_guard_unit()? {
                Some(unit) => {
                    let ghost value = unit.deep_view();
                    estack.push(unit);
                    assert(estack.deep_view() =~= stacked.push(value));
                    match self.take_tok() {
                        Some((op_s, t, op_e)) => match t.guard_precedence() {
                            Some(p) => {
                                // Is Op
                                let _ = self.next_tok();
                                last_op_start = op_s;
                                last_op_end = op_e;
                                let op = ((op_s, t, op_e), p);
                                proof {
                                    lemma_round(join, stacked, opstack@, units, ops, value, op);
                                    units = units.push(value);
                                    ops = ops.push(op);
                                }
                                let _ = handle_op(
                                    Some(op),
                                    &mut opstack,
                                    &mut estack,
                                    &do_reduce_clause_guard,
                                    Ghost(join),
                                    Ghost(valid),
                                )?;
                            },
                            None => {
                                // Is not Op
                                self.put_back(Some((op_s, t, op_e)));
                                proof {
                                    lemma_last_round(join, stacked, opstack@, units, ops, value);
                                }
                                return handle_op(
                                    None,
                                    &mut opstack,
                                    &mut estack,
                                    &do_reduce_clause_guard,
                                    Ghost(join),
                                    Ghost(valid),
                                );
                            },
                        },
                        // More must follow
                        None => {
                            return parse_error(
                                ParseErrorType::OpNakedRight,
                                SrcSpan { start: last_op_start, end: last_op_end },
                            );
                        },
                    }
                },
                None => {
                    if estack.len() == 0 {
                        return Ok(None);
                    } else {
                        return parse_error(
                            ParseErrorType::OpNakedRight,
                            SrcSpan { start: last_op_start, end: last_op_end },
                        );
                    }
                },
            }
        }
    }

    // examples
    // a
    // 1
    // a.1
    // { a }
    // { a || b }
    // { a < b || b < c }
    fn parse_case_clause_guard_unit(&mut self) -> (result: Result<Option<ClauseGuard>, ParseError>)
        requires
            old(self).wf(),
        ensures
            did_find(
                *old(self),
                *final(self),
                result,
                guard_unit(old(self).toks(), old(self).cursor()),
            ),
        decreases old(self).ahead(), 0nat,
    {
        match self.take_tok() {
            Some((start, Tok::Name { name }, end)) => {
                let _ = self.next_tok();
                let var = ClauseGuard::Var { location: SrcSpan { start, end }, typ: (), name };
                assert(var.deep_view() is Var);
                if let Some((dot_s, _)) = self.maybe_one(&Tok::Dot) {
                    match self.next_tok() {
                        Some((_, Tok::Int { value }, int_e)) => {
                            if let Some(index) = parse_decimal(value.as_str()) {
                                Ok(
                                    Some(
                                        ClauseGuard::TupleIndex {
                                            location: SrcSpan { start: dot_s, end: int_e },
                                            index,
                                            typ: (),
                                            tuple: Box::new(var),
                                        },
                                    ),
                                )
                            } else {
                                parse_error(
                                    ParseErrorType::InvalidTupleAccess,
                                    SrcSpan { start, end },
                                )
                            }
                        },
                        Some((start, _, end)) => parse_error(
                            ParseErrorType::InvalidTupleAccess,
                            SrcSpan { start, end },
                        ),
                        None => {
                            let expected = vec!["A positive integer".to_string()];
                            assert(expected.deep_view() =~= seq!["A positive integer"@]);
                            self.next_tok_unexpected(expected)
                        },
                    }
                } else {
                    Ok(Some(var))
                }
            },
            Some((_, Tok::Lbrace, _)) => {
                // Nested guard expression
                let _ = self.next_tok();
                let guard = self.parse_case_clause_guard(true);
                let _ = self.expect_one(&Tok::Rbrace)?;
                guard
            },
            t0 => {
                self.put_back(t0);
                if let Some(const_val) = self.parse_const_value()? {
                    // Constant
                    Ok(Some(ClauseGuard::Constant(const_val)))
                } else {
                    Ok(None)
                }
            },
        }
    }
}

} // verus!
