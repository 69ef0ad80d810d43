//! How far looking for guards gets.

use crate::grammar::basics::skip_one;
use crate::grammar::guards::{guard, guard_chain, guard_unit};
use crate::laws::places::advances;
use crate::laws::places::constants::const_value_is_found;
use crate::model::GuardView;
use crate::operator::guard_precedence;
use crate::precedence::Op;
use crate::stream::{ahead, next, peek, Cursor, Toks};
use crate::token::Tok;
use vstd::prelude::*;

verus! {

/// Looking for a guard gets ahead if it finds one, and never goes back nor beyond the last token.
/// The `if` before it and the braces around it are read even if they hold nothing.
pub proof fn guard_is_found(t: Toks, c: Cursor, nested: bool)
    requires
        c.at <= t.len(),
    ensures
        advances(t, c, guard(t, c, nested)),
    decreases ahead(t, c), 2nat,
{
    guard_chain_is_found(t, skip_one(t, c, Tok::If), Seq::empty(), Seq::empty());
}

pub(crate) proof fn guard_chain_is_found(t: Toks, c: Cursor, units: Seq<GuardView>, ops: Seq<Op>)
    requires
        c.at <= t.len(),
    ensures
        advances(t, c, guard_chain(t, c, units, ops)),
    decreases ahead(t, c), 1nat,
{
    guard_unit_is_found(t, c);
    let unit = guard_unit(t, c);
    if let Ok(Some(value)) = unit.res {
        if let Some((start, tok, end)) = peek(t, unit.to) {
            if let Some(p) = guard_precedence(tok) {
                guard_chain_is_found(
                    t,
                    next(t, unit.to),
                    units.push(value),
                    ops.push(((start, tok, end), p)),
                );
            }
        }
    }
}

/// Looking for a unit of a guard gets ahead if it finds one, and never goes back nor beyond the
/// last token.
pub proof fn guard_unit_is_found(t: Toks, c: Cursor)
    requires
        c.at <= t.len(),
    ensures
        advances(t, c, guard_unit(t, c)),
    decreases ahead(t, c), 0nat,
{
    match peek(t, c) {
        Some((_, Tok::Name { .. }, _)) => {},
        Some((_, Tok::Lbrace, _)) => {
            guard_is_found(t, next(t, c), true);
        },
        _ => {
            const_value_is_found(t, c);
        },
    }
}

} // verus!
