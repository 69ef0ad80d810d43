//! Guards elsewhere.

use crate::grammar::basics::skip_one;
use crate::grammar::guards::{guard, guard_chain, guard_unit};
use crate::laws::elsewhere::Stretch;
use crate::laws::elsewhere::constants::constants_are_the_same_elsewhere;
use crate::laws::places::constants::const_value_is_found;
use crate::laws::places::guards::{guard_chain_is_found, guard_is_found, guard_unit_is_found};
use crate::model::GuardView;
use crate::operator::guard_precedence;
use crate::precedence::Op;
use crate::stream::{ahead, next, peek, Cursor};
use crate::token::Tok;
use vstd::prelude::*;

verus! {

/// Where the same tokens stand elsewhere, the same guard is found.
pub proof fn guards_are_the_same_elsewhere(s: Stretch, c: Cursor, nested: bool)
    requires
        s.fits(),
        c.at <= s.here.len(),
    ensures
        s.same(guard(s.here, c, nested), guard(s.there, s.across(c), nested)),
    decreases ahead(s.here, c), 2nat,
{
    let t = s.here;
    guard_is_found(t, c, nested);
    guard_chain_is_found(t, skip_one(t, c, Tok::If), Seq::empty(), Seq::empty());
    lemma_guard_chain(s, skip_one(t, c, Tok::If), Seq::empty(), Seq::empty());
}

proof fn lemma_guard_chain(s: Stretch, c: Cursor, units: Seq<GuardView>, ops: Seq<Op>)
    requires
        s.fits(),
        c.at <= s.here.len(),
    ensures
        s.same(
            guard_chain(s.here, c, units, ops),
            guard_chain(s.there, s.across(c), units, ops),
        ),
    decreases ahead(s.here, c), 1nat,
{
    let t = s.here;
    guard_chain_is_found(t, c, units, ops);
    guard_unit_is_found(t, c);
    lemma_guard_unit(s, c);
    let unit = guard_unit(t, c);
    if let Ok(Some(value)) = unit.res {
        if let Some((start, tok, end)) = peek(t, unit.to) {
            if let Some(p) = guard_precedence(tok) {
                let behind = next(t, unit.to);
                let more_units = units.push(value);
                let more_ops = ops.push(((start, tok, end), p));
                guard_chain_is_found(t, behind, more_units, more_ops);
                lemma_guard_chain(s, behind, more_units, more_ops);
            }
        }
    }
}

proof fn lemma_guard_unit(s: Stretch, c: Cursor)
    requires
        s.fits(),
        c.at <= s.here.len(),
    ensures
        s.same(guard_unit(s.here, c), guard_unit(s.there, s.across(c))),
    decreases ahead(s.here, c), 0nat,
{
    let t = s.here;
    guard_unit_is_found(t, c);
    match peek(t, c) {
        Some((_, Tok::Name { .. }, _)) => {},
        Some((_, Tok::Lbrace, _)) => {
            guard_is_found(t, next(t, c), true);
            guards_are_the_same_elsewhere(s, next(t, c), true);
        },
        _ => {
            const_value_is_found(t, c);
            constants_are_the_same_elsewhere(s, c);
        },
    }
}

} // verus!
