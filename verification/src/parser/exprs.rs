//! Parsing of expressions and sequences of them.

use crate::ast::{
    BindingKind, BitStringSegment, Clause, Pattern, RecordUpdateSpread, SrcSpan, Statement, TypeAst,
    UntypedExpr, UntypedRecordUpdateArg,
};
use crate::call::make_call;
use crate::error::{parse_error, ErrorView, ParseError, ParseErrorType};
use crate::grammar::exprs::{
    binding, binding_start, bit_string_expr, block_expr, bound_value, call_or_update, case_clause,
    case_clause_from, case_expr, expect_expression, expect_expression_from, expr_chain, expr_head,
    expr_number, expr_segment, expr_segment_from, expr_unit, expression, expression_from,
    expression_seq, expressions, field_access, fn_expr, list_expr, list_of, new_values,
    record_update, seq_rest, todo_expr, tuple_expr, unit_tail, update_arg, update_arg_from,
};
use crate::grammar::guards::last_op_span;
use crate::location::HasLocation;
use crate::model::{
    clauses_view_is_deep_view, expr_segments_view_is_deep_view, exprs_view_is_deep_view,
    update_args_view_is_deep_view, ExprView,
};
use crate::number::parse_decimal;
use crate::operator::{do_reduce_expression, expr_joiner, expr_precedence, precedence};
use crate::parser::{arrived, behind, did, did_find, Parser};
use crate::precedence::{handle_op, lemma_last_round, lemma_round, same_trees, tightening, Op};
use crate::stream::next;
use crate::token::{Spanned, Tok};
use vstd::prelude::*;

verus! {

impl Parser {
    // examples:
    //   unit
    //   unit op unit
    //   unit op unit pipe unit(call)
    //   unit op unit pipe unit(call) pipe unit(call)
    pub(crate) fn parse_expression(&mut self) -> (result: Result<Option<UntypedExpr>, ParseError>)
        requires
            old(self).wf(),
        ensures
            did_find(
                *old(self),
                *final(self),
                result,
                expression(old(self).toks(), old(self).cursor()),
            ),
        decreases old(self).ahead(), 3nat,
    {
        // uses the simple operator parser algorithm
        let mut opstack: Vec<Op> = vec![];
        let mut estack: Vec<UntypedExpr> = vec![];
        let mut last_op_start: usize = 0;
        let mut last_op_end: usize = 0;
        let ghost t = self.toks();
        let ghost join = expr_joiner();
        let ghost valid = |op: Spanned| expr_precedence(op.1) is Some;
        let ghost mut units = estack.deep_view();
        let ghost mut ops = opstack@;
        let ghost whole = expr_chain(t, self.cursor(), Seq::empty(), Seq::empty());
        assert(units =~= Seq::empty());
        assert(whole == expression(t, self.cursor()));
        loop
            invariant
                behind(*old(self), *self),
                t == old(self).toks(),
                join == expr_joiner(),
                valid == (|op: Spanned| expr_precedence(op.1) is Some),
                whole == expr_chain(t, self.cursor(), units, ops),
                whole == expression(t, old(self).cursor()),
                estack@.len() == opstack@.len(),
                units.len() == ops.len(),
                units.len() == 0 <==> estack@.len() == 0,
                tightening(opstack@),
                same_trees(join, estack.deep_view(), opstack@, units, ops),
                forall|i: int| 0 <= i < opstack@.len() ==> valid((#[trigger] opstack@[i]).0),
                last_op_span(ops) == (SrcSpan { start: last_op_start, end: last_op_end }),
                units.len() > 0 ==> old(self).cursor().at < self.cursor().at,
            decreases self.ahead(),
        {
            let ghost stacked = estack.deep_view();
            match self.parse_expression_unit()? {
                Some(unit) => {
                    let ghost value = unit.deep_view();
                    estack.push(unit);
                    assert(estack.deep_view() =~= stacked.push(value));
                    let op = match self.take_tok() {
                        Some((op_s, t, op_e)) => match precedence(&t) {
                            // Is Op
                            Some(p) => {
                                let _ = self.next_tok();
                                Some(((op_s, t, op_e), p))
                            },
                            // Is not Op
                            None => {
                                self.put_back(Some((op_s, t, op_e)));
                                None
                            },
                        },
                        None => None,
                    };
                    match op {
                        Some(op) => {
                            last_op_start = op.0.0;
                            last_op_end = op.0.2;
                            proof {
                                lemma_round(join, stacked, opstack@, units, ops, value, op);
                                units = units.push(value);
                                ops = ops.push(op);
                            }
                            let _ = handle_op(
                                Some(op),
                                &mut opstack,
                                &mut estack,
                                &do_reduce_expression,
                                Ghost(join),
                                Ghost(valid),
                            )?;
                        },
                        None => {
                            proof {
                                lemma_last_round(join, stacked, opstack@, units, ops, value);
                            }
                            return handle_op(
                                None,
                                &mut opstack,
                                &mut estack,
                                &do_reduce_expression,
                                Ghost(join),
                                Ghost(valid),
                            );
                        },
                    }
                },
                None => {
                    if estack.len() == 0 {
                        return Ok(None);
                    } else {
                        return parse_error(
                            ParseErrorType::OpNakedRight,
                            SrcSpan { start: last_op_start, end: last_op_end },
                        );
                    }
                },
            }
        }
    }

    // examples:
    //   1
    //   "one"
    //   True
    //   fn() { "hi" }
    //   unit().unit().unit()
    //   A(a.., label: tuple(1))
    //   A(..a, label: tuple(1))
    //   { expression_sequence }
    fn parse_expression_unit(&mut self) -> (result: Result<Option<UntypedExpr>, ParseError>)
        requires
            old(self).wf(),
        ensures
            did_find(
                *old(self),
                *final(self),
                result,
                expr_unit(old(self).toks(), old(self).cursor()),
            ),
        decreases old(self).ahead(), 1nat,
    {
        match self.parse_expression_head()? {
            None => Ok(None),
            Some(expr) => Ok(Some(self.expect_unit_tail(expr)?)),
        }
    }

    // What a unit starts with
    fn parse_expression_head(&mut self) -> (result: Result<Option<UntypedExpr>, ParseError>)
        requires
            old(self).wf(),
        ensures
            did_find(
                *old(self),
                *final(self),
                result,
                expr_head(old(self).toks(), old(self).cursor()),
            ),
        decreases old(self).ahead(), 0nat,
    {
        match self.take_tok() {
            Some((start, Tok::String { value }, end)) => {
                let _ = self.next_tok();
                Ok(Some(UntypedExpr::String { location: SrcSpan { start, end }, value }))
            },
            Some((start, Tok::Int { value }, end)) => {
                let _ = self.next_tok();
                Ok(Some(UntypedExpr::Int { location: SrcSpan { start, end }, value }))
            },
            Some((start, Tok::Float { value }, end)) => {
                let _ = self.next_tok();
                Ok(Some(UntypedExpr::Float { location: SrcSpan { start, end }, value }))
            },
            Some((start, Tok::ListNil, end)) => {
                let _ = self.next_tok();
                Ok(Some(UntypedExpr::ListNil { location: SrcSpan { start, end } }))
            },
            // var lower_name and UpName
            Some((start, Tok::Name { name }, end)) => {
                let _ = self.next_tok();
                Ok(Some(UntypedExpr::Var { location: SrcSpan { start, end }, name }))
            },
            Some((start, Tok::UpName { name }, end)) => {
                let _ = self.next_tok();
                Ok(Some(UntypedExpr::Var { location: SrcSpan { start, end }, name }))
            },
            Some((start, Tok::Todo, end)) => {
                let _ = self.next_tok();
                Ok(Some(self.expect_todo(start, end)?))
            },
            Some((start, Tok::Tuple, _)) => {
                let _ = self.next_tok();
                Ok(Some(self.expect_tuple(start)?))
            },
            // list
            Some((start, Tok::Lsqb, _)) => {
                let _ = self.next_tok();
                Ok(Some(self.expect_list(start)?))
            },
            // Bitstring
            Some((start, Tok::LtLt, _)) => {
                let _ = self.next_tok();
                Ok(Some(self.expect_bit_string(start)?))
            },
            Some((start, Tok::Fn, _)) => {
                let _ = self.next_tok();
                Ok(Some(self.expect_anon_fn(start)?))
            },
            // expression group  "{" "}"
            Some((start, Tok::Lbrace, _)) => {
                let _ = self.next_tok();
                Ok(Some(self.expect_block(start)?))
            },
            // case
            Some((start, Tok::Case, case_e)) => {
                let _ = self.next_tok();
                Ok(Some(self.expect_case(start, case_e)?))
            },
            // helpful error on possibly trying to group with "("
            Some((start, Tok::Lpar, _)) => parse_error(
                ParseErrorType::ExprLparStart,
                SrcSpan { start, end: start },
            ),
            t0 => {
                self.put_back(t0);
                Ok(None)
            },
        }
    }

    // Starts after "todo"
    fn expect_todo(&mut self, start: usize, end: usize) -> (result: Result<UntypedExpr, ParseError>)
        requires
            old(self).wf(),
        ensures
            did(
                *old(self),
                *final(self),
                result,
                todo_expr(old(self).toks(), old(self).cursor(), start, end),
            ),
    {
        if self.maybe_one(&Tok::Lpar).is_some() {
            let (_, label, _) = self.expect_string()?;
            let (_, end) = self.expect_one(&Tok::Rpar)?;
            Ok(UntypedExpr::Todo { location: SrcSpan { start, end }, label: Some(label) })
        } else {
            Ok(UntypedExpr::Todo { location: SrcSpan { start, end }, label: None })
        }
    }

    // Starts after "tuple"
    fn expect_tuple(&mut self, start: usize) -> (result: Result<UntypedExpr, ParseError>)
        requires
            old(self).wf(),
        ensures
            did(
                *old(self),
                *final(self),
                result,
                tuple_expr(old(self).toks(), old(self).cursor(), start),
            ),
        decreases old(self).ahead(), 8nat,
    {
        let _ = self.expect_one(&Tok::Lpar)?;
        let elems = self.parse_expressions()?;
        proof {
            exprs_view_is_deep_view(elems);
        }
        let (_, end) = self.expect_one(&Tok::Rpar)?;
        Ok(UntypedExpr::Tuple { location: SrcSpan { start, end }, elems })
    }

    // Starts after "["
    fn expect_list(&mut self, start: usize) -> (result: Result<UntypedExpr, ParseError>)
        requires
            old(self).wf(),
        ensures
            did(
                *old(self),
                *final(self),
                result,
                list_expr(old(self).toks(), old(self).cursor(), start),
            ),
        decreases old(self).ahead(), 8nat,
    {
        let elems = self.parse_expressions()?;
        let mut tail = None;
        if self.maybe_one(&Tok::DotDot).is_some() {
            tail = self.parse_expression()?;
            let _ = self.maybe_one(&Tok::Comma);
        }
        let (_, end) = self.expect_one(&Tok::Rsqb)?;
        let tail = match tail {
            Some(expr) => expr,
            None => UntypedExpr::ListNil { location: SrcSpan { start, end } },
        };
        Ok(list_to_expr(elems, tail))
    }

    // Starts after "<<"
    fn expect_bit_string(&mut self, start: usize) -> (result: Result<UntypedExpr, ParseError>)
        requires
            old(self).wf(),
        ensures
            did(
                *old(self),
                *final(self),
                result,
                bit_string_expr(old(self).toks(), old(self).cursor(), start),
            ),
        decreases old(self).ahead(), 8nat,
    {
        let ghost n = self.ahead();
        let parser = |p: &mut Parser| -> (found: Result<
            Option<BitStringSegment<UntypedExpr>>,
            ParseError,
        >)
            requires
                p.wf(),
                p.ahead() <= n,
            ensures
                did_find(*old(p), *final(p), found, expr_segment(old(p).toks(), old(p).cursor())),
            { p.parse_expression_segment() };
        let segments = self.series_of(
            &parser,
            Some(&Tok::Comma),
            Ghost(expr_segment_from(self.toks(), self.cursor())),
        )?;
        proof {
            expr_segments_view_is_deep_view(segments);
        }
        let (_, end) = self.expect_one(&Tok::GtGt)?;
        Ok(UntypedExpr::BitString { location: SrcSpan { start, end }, segments })
    }

    // A segment of a bit string
    fn parse_expression_segment(&mut self) -> (result: Result<
        Option<BitStringSegment<UntypedExpr>>,
        ParseError,
    >)
        requires
            old(self).wf(),
        ensures
            did_find(
                *old(self),
                *final(self),
                result,
                expr_segment(old(self).toks(), old(self).cursor()),
            ),
        decreases old(self).ahead(), 6nat,
    {
        let ghost n = self.ahead();
        let value_parser = |p: &mut Parser| -> (found: Result<Option<UntypedExpr>, ParseError>)
            requires
                p.wf(),
                p.ahead() <= n,
            ensures
                did_find(*old(p), *final(p), found, expr_unit(old(p).toks(), old(p).cursor())),
            { p.parse_expression_unit() };
        let arg_parser = |p: &mut Parser| -> (found: Result<UntypedExpr, ParseError>)
            requires
                p.wf(),
                p.ahead() <= n,
            ensures
                did(
                    *old(p),
                    *final(p),
                    found,
                    expect_expression(old(p).toks(), old(p).cursor()),
                ),
            { p.expect_expression() };
        let ghost t = self.toks();
        self.parse_bit_string_segment(
            &value_parser,
            &arg_parser,
            &bit_string_expr_int,
            Ghost(|c| expr_unit(t, c)),
            Ghost(expect_expression_from(self.toks(), self.cursor())),
            Ghost(expr_number()),
        )
    }

    // Starts after "fn"
    fn expect_anon_fn(&mut self, start: usize) -> (result: Result<UntypedExpr, ParseError>)
        requires
            old(self).wf(),
        ensures
            did(
                *old(self),
                *final(self),
                result,
                fn_expr(old(self).toks(), old(self).cursor(), start),
            ),
        decreases old(self).ahead(), 8nat,
    {
        match self.parse_function(start, false, true)? {
            Some(Statement::Fn { location, args, body, return_annotation, .. }) => {
                Ok(
                    UntypedExpr::Fn {
                        location,
                        is_capture: false,
                        args,
                        body: Box::new(body),
                        return_annotation,
                    },
                )
            },
            _ => {
                let expected = vec!["An opening parenthesis.".to_string()];
                assert(expected.deep_view() =~= seq!["An opening parenthesis."@]);
                self.next_tok_unexpected(expected)
            },
        }
    }

    // Starts after "{"
    fn expect_block(&mut self, start: usize) -> (result: Result<UntypedExpr, ParseError>)
        requires
            old(self).wf(),
        ensures
            did(
                *old(self),
                *final(self),
                result,
                block_expr(old(self).toks(), old(self).cursor(), start),
            ),
        decreases old(self).ahead(), 8nat,
    {
        let expr = self.parse_expression_seq()?;
        let (_, end) = self.expect_one(&Tok::Rbrace)?;
        if let Some((expr, _)) = expr {
            Ok(expr)
        } else {
            parse_error(ParseErrorType::NoExpression, SrcSpan { start, end })
        }
    }

    // Starts after "case"
    fn expect_case(&mut self, start: usize, case_e: usize) -> (result: Result<
        UntypedExpr,
        ParseError,
    >)
        requires
            old(self).wf(),
        ensures
            did(
                *old(self),
                *final(self),
                result,
                case_expr(old(self).toks(), old(self).cursor(), start, case_e),
            ),
        decreases old(self).ahead(), 8nat,
    {
        let subjects = self.parse_expressions()?;
        let _ = self.expect_one(&Tok::Lbrace)?;
        let ghost n = self.ahead();
        let parser = |p: &mut Parser| -> (found: Result<Option<Clause>, ParseError>)
            requires
                p.wf(),
                p.ahead() <= n,
            ensures
                did_find(*old(p), *final(p), found, case_clause(old(p).toks(), old(p).cursor())),
            { p.parse_case_clause() };
        let clauses = self.series_of(
            &parser,
            None,
            Ghost(case_clause_from(self.toks(), self.cursor())),
        )?;
        proof {
            exprs_view_is_deep_view(subjects);
            clauses_view_is_deep_view(clauses);
        }
        let (_, end) = self.expect_one(&Tok::Rbrace)?;
        if subjects.len() == 0 {
            parse_error(ParseErrorType::ExpectedExpr, SrcSpan { start, end: case_e })
        } else if clauses.len() == 0 {
            parse_error(ParseErrorType::NoCaseClause, SrcSpan { start, end })
        } else {
            Ok(UntypedExpr::Case { location: SrcSpan { start, end }, subjects, clauses })
        }
    }

    // field access and call can stack up
    fn expect_unit_tail(&mut self, expr: UntypedExpr) -> (result: Result<UntypedExpr, ParseError>)
        requires
            old(self).wf(),
        ensures
            did(
                *old(self),
                *final(self),
                result,
                unit_tail(old(self).toks(), old(self).cursor(), expr.deep_view()),
            ),
        decreases old(self).ahead(), 0nat,
    {
        let ghost t = self.toks();
        let ghost first = expr.deep_view();
        let ghost whole = unit_tail(t, self.cursor(), first);
        let mut longer = expr;
        loop
            invariant
                behind(*old(self), *self),
                t == old(self).toks(),
                first == expr.deep_view(),
                whole == unit_tail(t, self.cursor(), longer.deep_view()),
                whole == unit_tail(t, old(self).cursor(), first),
            ensures
                behind(*old(self), *self),
                whole.res == Ok::<ExprView, ErrorView>(longer.deep_view()),
                whole.to == self.cursor(),
            decreases self.ahead(),
        {
            if self.maybe_one(&Tok::Dot).is_some() {
                longer = self.expect_field_access(longer)?;
            } else if self.maybe_one(&Tok::Lpar).is_some() {
                longer = self.expect_call_or_update(longer)?;
            } else {
                // done
                break ;
            }
        }
        Ok(longer)
    }

    // Starts after "."
    fn expect_field_access(&mut self, expr: UntypedExpr) -> (result: Result<
        UntypedExpr,
        ParseError,
    >)
        requires
            old(self).wf(),
        ensures
            did(
                *old(self),
                *final(self),
                result,
                field_access(old(self).toks(), old(self).cursor(), expr.deep_view()),
            ),
    {
        let start = expr.location().start;
        match self.take_tok() {
            // tuple access
            Some((_, Tok::Int { value }, end)) => {
                let _ = self.next_tok();
                if let Some(index) = parse_decimal(value.as_str()) {
                    Ok(
                        UntypedExpr::TupleIndex {
                            location: SrcSpan { start, end },
                            index,
                            tuple: Box::new(expr),
                        },
                    )
                } else {
                    parse_error(ParseErrorType::InvalidTupleAccess, SrcSpan { start, end })
                }
            },
            // field access
            Some((_, Tok::Name { name: label }, end)) => {
                let _ = self.next_tok();
                Ok(
                    UntypedExpr::FieldAccess {
                        location: SrcSpan { start, end },
                        label,
                        container: Box::new(expr),
                    },
                )
            },
            Some((_, Tok::UpName { name: label }, end)) => {
                let _ = self.next_tok();
                Ok(
                    UntypedExpr::FieldAccess {
                        location: SrcSpan { start, end },
                        label,
                        container: Box::new(expr),
                    },
                )
            },
            t0 => {
                self.put_back(t0);
                let expected = vec!["A positive integer or a field name.".to_string()];
                assert(expected.deep_view() =~= seq!["A positive integer or a field name."@]);
                self.next_tok_unexpected(expected)
            },
        }
    }

    // Starts after "("
    fn expect_call_or_update(&mut self, expr: UntypedExpr) -> (result: Result<
        UntypedExpr,
        ParseError,
    >)
        requires
            old(self).wf(),
        ensures
            did(
                *old(self),
                *final(self),
                result,
                call_or_update(old(self).toks(), old(self).cursor(), expr.deep_view()),
            ),
        decreases old(self).ahead(), 8nat,
    {
        let start = expr.location().start;
        if let Some((dot_s, _)) = self.maybe_one(&Tok::DotDot) {
            // Record update
            return self.expect_record_update(expr, dot_s);
        }
        match (self.take_tok(), self.second()) {
            // Record update, the record first
            (Some((name_s, Tok::Name { name }, _)), Some(Tok::DotDot)) => {
                self.next_tok();
                let dot_e = match self.next_tok() {
                    Some((_, _, end)) => end,
                    None => name_s,
                };
                let spread = RecordUpdateSpread {
                    name,
                    location: SrcSpan { start: name_s, end: dot_e },
                };
                self.expect_new_values(expr, spread)
            },
            // Call
            (t0, _) => {
                self.put_back(t0);
                let args = self.parse_fn_args()?;
                let (_, end) = self.expect_one(&Tok::Rpar)?;
                make_call(expr, args, start, end)
            },
        }
    }

    // Starts after ".."
    fn expect_record_update(&mut self, expr: UntypedExpr, dot_s: usize) -> (result: Result<
        UntypedExpr,
        ParseError,
    >)
        requires
            old(self).wf(),
        ensures
            did(
                *old(self),
                *final(self),
                result,
                record_update(old(self).toks(), old(self).cursor(), expr.deep_view(), dot_s),
            ),
        decreases old(self).ahead(), 8nat,
    {
        let (_, name, name_e) = self.expect_name()?;
        let spread = RecordUpdateSpread { name, location: SrcSpan { start: dot_s, end: name_e } };
        self.expect_new_values(expr, spread)
    }

    // Starts after the record that is updated
    fn expect_new_values(&mut self, expr: UntypedExpr, spread: RecordUpdateSpread) -> (result:
        Result<UntypedExpr, ParseError>)
        requires
            old(self).wf(),
        ensures
            did(
                *old(self),
                *final(self),
                result,
                new_values(
                    old(self).toks(),
                    old(self).cursor(),
                    expr.deep_view(),
                    spread.deep_view(),
                ),
            ),
        decreases old(self).ahead(), 8nat,
    {
        let start = expr.location().start;
        let args = if self.maybe_one(&Tok::Comma).is_some() {
            let ghost n = self.ahead();
            let parser = |p: &mut Parser| -> (found: Result<
                Option<UntypedRecordUpdateArg>,
                ParseError,
            >)
                requires
                    p.wf(),
                    p.ahead() <= n,
                ensures
                    did_find(*old(p), *final(p), found, update_arg(old(p).toks(), old(p).cursor())),
                { p.parse_record_update_arg() };
            self.series_of(
                &parser,
                Some(&Tok::Comma),
                Ghost(update_arg_from(self.toks(), self.cursor())),
            )?
        } else {
            let none: Vec<UntypedRecordUpdateArg> = vec![];
            assert(none.deep_view() =~= Seq::empty());
            none
        };
        proof {
            update_args_view_is_deep_view(args);
        }
        let (_, end) = self.expect_one(&Tok::Rpar)?;
        Ok(
            UntypedExpr::RecordUpdate {
                location: SrcSpan { start, end },
                constructor: Box::new(expr),
                spread,
                args,
            },
        )
    }

    // examples:
    //   a: expr
    fn parse_record_update_arg(&mut self) -> (result: Result<
        Option<UntypedRecordUpdateArg>,
        ParseError,
    >)
        requires
            old(self).wf(),
        ensures
            did_find(
                *old(self),
                *final(self),
                result,
                update_arg(old(self).toks(), old(self).cursor()),
            ),
        decreases old(self).ahead(), 4nat,
    {
        if let Some((start, label, _)) = self.maybe_name() {
            let _ = self.expect_one(&Tok::Colon)?;
            if let Some(value) = self.parse_expression()? {
                Ok(
                    Some(
                        UntypedRecordUpdateArg {
                            label,
                            location: SrcSpan { start, end: value.location().end },
                            value,
                        },
                    ),
                )
            } else {
                let expected = vec!["An expression".to_string()];
                assert(expected.deep_view() =~= seq!["An expression"@]);
                self.next_tok_unexpected(expected)
            }
        } else {
            Ok(None)
        }
    }

    fn expect_expression(&mut self) -> (result: Result<UntypedExpr, ParseError>)
        requires
            old(self).wf(),
        ensures
            did(
                *old(self),
                *final(self),
                result,
                expect_expression(old(self).toks(), old(self).cursor()),
            ),
        decreases old(self).ahead(), 4nat,
    {
        if let Some(e) = self.parse_expression()? {
            Ok(e)
        } else {
            let expected = vec!["An expression".to_string()];
            assert(expected.deep_view() =~= seq!["An expression"@]);
            self.next_tok_unexpected(expected)
        }
    }

    // Expressions with commas between them
    fn parse_expressions(&mut self) -> (result: Result<Vec<UntypedExpr>, ParseError>)
        requires
            old(self).wf(),
        ensures
            did(
                *old(self),
                *final(self),
                result,
                expressions(old(self).toks(), old(self).cursor()),
            ),
        decreases old(self).ahead(), 5nat,
    {
        let ghost n = self.ahead();
        let parser = |p: &mut Parser| -> (found: Result<Option<UntypedExpr>, ParseError>)
            requires
                p.wf(),
                p.ahead() <= n,
            ensures
                did_find(*old(p), *final(p), found, expression(old(p).toks(), old(p).cursor())),
            { p.parse_expression() };
        self.series_of(
            &parser,
            Some(&Tok::Comma),
            Ghost(expression_from(self.toks(), self.cursor())),
        )
    }

    // examples:
    //   let pattern = expr
    //   assert pattern: Type = expr
    //   try pattern = expr
    //   expr expr
    //   expr
    //
    //   In order to parse an expr sequence, you must try to parse an expr, if it is a binding
    //   you MUST parse another expr, if it is some other expr, you MAY parse another expr
    pub(crate) fn parse_expression_seq(&mut self) -> (result: Result<
        Option<(UntypedExpr, usize)>,
        ParseError,
    >)
        requires
            old(self).wf(),
        ensures
            did_find(
                *old(self),
                *final(self),
                result,
                expression_seq(old(self).toks(), old(self).cursor()),
            ),
        decreases old(self).ahead(), 4nat,
    {
        // binding
        if let Some((start, kind)) = self.maybe_binding_start() {
            Ok(Some(self.expect_binding(start, kind)?))
        } else if let Some(expr) = self.parse_expression()? {
            Ok(Some(self.parse_seq_rest(expr)?))
        } else {
            Ok(None)
        }
    }

    // What follows an expression in its sequence
    fn parse_seq_rest(&mut self, expr: UntypedExpr) -> (result: Result<
        (UntypedExpr, usize),
        ParseError,
    >)
        requires
            old(self).wf(),
        ensures
            did(
                *old(self),
                *final(self),
                result,
                seq_rest(old(self).toks(), old(self).cursor(), expr.deep_view()),
            ),
        decreases old(self).ahead(), 5nat,
    {
        let ghost t = self.toks();
        let ghost first = expr.deep_view();
        let ghost whole = seq_rest(t, self.cursor(), first);
        let mut longer = expr;
        loop
            invariant
                behind(*old(self), *self),
                t == old(self).toks(),
                first == expr.deep_view(),
                whole == seq_rest(t, self.cursor(), longer.deep_view()),
                whole == seq_rest(t, old(self).cursor(), first),
            decreases self.ahead(),
        {
            match self.parse_expression_seq()? {
                Some((e, _)) => {
                    longer = UntypedExpr::Sequence { first: Box::new(longer), then: Box::new(e) };
                },
                None => {
                    let end = longer.location().end;
                    return Ok((longer, end));
                },
            }
        }
    }

    // let, assert, or try
    fn maybe_binding_start(&mut self) -> (kind: Option<(usize, BindingKind)>)
        requires
            old(self).wf(),
        ensures
            kind == binding_start(old(self).toks(), old(self).cursor()),
            arrived(
                *old(self),
                *final(self),
                if kind is Some {
                    next(old(self).toks(), old(self).cursor())
                } else {
                    old(self).cursor()
                },
            ),
    {
        match self.take_tok() {
            Some((start, Tok::Let, _)) => {
                let _ = self.next_tok();
                Some((start, BindingKind::Let))
            },
            Some((start, Tok::Assert, _)) => {
                let _ = self.next_tok();
                Some((start, BindingKind::Assert))
            },
            Some((start, Tok::Try, _)) => {
                let _ = self.next_tok();
                Some((start, BindingKind::Try))
            },
            t0 => {
                self.put_back(t0);
                None
            },
        }
    }

    // Starts after "let", "assert" or "try"
    fn expect_binding(&mut self, start: usize, kind: BindingKind) -> (result: Result<
        (UntypedExpr, usize),
        ParseError,
    >)
        requires
            old(self).wf(),
        ensures
            did(
                *old(self),
                *final(self),
                result,
                binding(old(self).toks(), old(self).cursor(), start, kind),
            ),
        decreases old(self).ahead(), 6nat,
    {
        if let Some(pattern) = self.parse_pattern()? {
            let annotation = self.parse_type_annotation(&Tok::Colon, false)?;
            let (eq_s, eq_e) = self.expect_one(&Tok::Equal)?;
            self.expect_bound_value(start, kind, pattern, annotation, eq_s, eq_e)
        } else {
            let expected = vec![
                "A pattern".to_string(),
                "See: https://gleam.run/book/tour/patterns".to_string(),
            ];
            assert(expected.deep_view() =~= seq![
                "A pattern"@,
                "See: https://gleam.run/book/tour/patterns"@,
            ]);
            self.next_tok_unexpected(expected)
        }
    }

    // Starts after "="
    fn expect_bound_value(
        &mut self,
        start: usize,
        kind: BindingKind,
        pattern: Pattern,
        annotation: Option<TypeAst>,
        eq_s: usize,
        eq_e: usize,
    ) -> (result: Result<(UntypedExpr, usize), ParseError>)
        requires
            old(self).wf(),
        ensures
            did(
                *old(self),
                *final(self),
                result,
                bound_value(
                    old(self).toks(),
                    old(self).cursor(),
                    (start, kind, pattern.deep_view(), annotation.deep_view()),
                    (eq_s, eq_e),
                ),
            ),
        decreases old(self).ahead(), 5nat,
    {
        let value = self.parse_expression()?;
        let rest = self.parse_expression_seq()?;
        match (value, rest) {
            (Some(value), Some((rest, seq_end))) => {
                Ok(
                    (
                        UntypedExpr::Let {
                            location: SrcSpan { start, end: value.location().end },
                            value: Box::new(value),
                            pattern,
                            annotation,
                            kind,
                            then: Box::new(rest),
                        },
                        seq_end,
                    ),
                )
            },
            (None, _) => parse_error(
                ParseErrorType::ExpectedValue,
                SrcSpan { start: eq_s, end: eq_e },
            ),
            (Some(value), None) => parse_error(
                ParseErrorType::ExprTailBinding,
                SrcSpan { start, end: value.location().end },
            ),
        }
    }
}

proof fn lemma_list_of_push(elements: Seq<ExprView>, last: ExprView, tail: ExprView)
    ensures
        list_of(elements.push(last), tail) == list_of(
            elements,
            ExprView::ListCons {
                location: tail.location(),
                head: Box::new(last),
                tail: Box::new(tail),
            },
        ),
    decreases elements.len(),
{
    if elements.len() == 0 {
        assert(elements.push(last).drop_first() =~= Seq::empty());
        reveal_with_fuel(list_of, 2);
    } else {
        assert(elements.push(last).drop_first() =~= elements.drop_first().push(last));
        lemma_list_of_push(elements.drop_first(), last, tail);
    }
}

/// The list that starts with some elements and goes on with a tail.
fn list_to_expr(elems: Vec<UntypedExpr>, tail: UntypedExpr) -> (expr: UntypedExpr)
    ensures
        expr.deep_view() == list_of(elems.deep_view(), tail.deep_view()),
{
    let ghost whole = list_of(elems.deep_view(), tail.deep_view());
    let mut rest = elems;
    let mut list = tail;
    loop
        invariant
            list_of(rest.deep_view(), list.deep_view()) == whole,
        ensures
            list.deep_view() == whole,
        decreases rest@.len(),
    {
        let ghost before = rest.deep_view();
        match rest.pop() {
            Some(elem) => {
                proof {
                    assert(before =~= rest.deep_view().push(elem.deep_view()));
                    lemma_list_of_push(rest.deep_view(), elem.deep_view(), list.deep_view());
                }
                list =
                UntypedExpr::ListCons {
                    location: list.location(),
                    head: Box::new(elem),
                    tail: Box::new(list),
                };
            },
            None => {
                break ;
            },
        }
    }
    list
}

/// A number as an expression.
fn bit_string_expr_int(value: String, start: usize, end: usize) -> (expr: UntypedExpr)
    ensures
        expr.deep_view() == (expr_number())(value@, start, end),
{
    UntypedExpr::Int { location: SrcSpan { start, end }, value }
}

} // verus!
