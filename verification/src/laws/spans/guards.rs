//! Where the errors in guards are located.

use crate::grammar::basics::skip_one;
use crate::grammar::guards::{guard, guard_chain, guard_unit, last_op_span};
use crate::laws::spans::{all_fit, error_fits, within};
use crate::laws::spans::constants::errors_in_constants_are_located;
use crate::model::GuardView;
use crate::operator::guard_precedence;
use crate::precedence::Op;
use crate::stream::{ahead, from, next, peek, Cursor, Toks};
use crate::token::Tok;
use vstd::prelude::*;

verus! {

/// The errors in a guard are located within the bound of the tokens.
pub proof fn errors_in_guards_are_located(bound: nat, t: Toks, c: Cursor, nested: bool)
    requires
        all_fit(bound, t),
    ensures
        error_fits(bound, guard(t, c, nested)),
    decreases ahead(t, c), 2nat,
{
    lemma_chain(bound, t, skip_one(t, c, Tok::If), Seq::empty(), Seq::empty());
}

proof fn lemma_chain(bound: nat, t: Toks, c: Cursor, units: Seq<GuardView>, ops: Seq<Op>)
    requires
        all_fit(bound, t),
        within(bound, last_op_span(ops)),
    ensures
        error_fits(bound, guard_chain(t, c, units, ops)),
    decreases ahead(t, c), 1nat,
{
    lemma_unit(bound, t, c);
    let unit = guard_unit(t, c);
    let to = from(t, c, unit.to);
    if let Ok(Some(value)) = unit.res {
        if let Some((start, tok, end)) = peek(t, to) {
            if let Some(p) = guard_precedence(tok) {
                let op = ((start, tok, end), p);
                lemma_chain(bound, t, next(t, to), units.push(value), ops.push(op));
            }
        }
    }
}

proof fn lemma_unit(bound: nat, t: Toks, c: Cursor)
    requires
        all_fit(bound, t),
    ensures
        error_fits(bound, guard_unit(t, c)),
    decreases ahead(t, c), 0nat,
{
    match peek(t, c) {
        Some((_, Tok::Name { .. }, _)) => {},
        Some((_, Tok::Lbrace, _)) => {
            errors_in_guards_are_located(bound, t, next(t, c), true);
        },
        _ => {
            errors_in_constants_are_located(bound, t, c);
        },
    }
}

} // verus!
