//! What guards need.

use crate::ast::SrcSpan;
use crate::error::ParseErrorType;
use crate::grammar::basics::{error_at, found};
use crate::grammar::constants::const_value;
use crate::grammar::guards::{guard, guard_chain, guard_unit, last_op_span};
use crate::laws::needs::{lacks, lemma_lacks, passes_on};
use crate::laws::places::guards::guard_unit_is_found;
use crate::laws::rules::{at, is_any_name, is_tok};
use crate::model::GuardView;
use crate::precedence::Op;
use crate::stream::{Cursor, Toks};
use crate::token::Tok;
use vstd::prelude::*;

verus! {

/// A guard in braces needs the closing one, which is looked for even if there is an error in the
/// guard. If it is there, that error is passed on.
pub proof fn what_a_guard_in_braces_needs(t: Toks, i: nat, k: nat)
    requires
        is_tok(t, i, Tok::Lbrace),
        guard(t, at(i + 1), true).to == at(k),
    ensures
        !is_tok(t, k, Tok::Rbrace) ==> lacks(guard_unit(t, at(i)), t, k, Tok::Rbrace),
        is_tok(t, k, Tok::Rbrace) ==> guard_unit(t, at(i)).res == guard(t, at(i + 1), true).res
            && guard_unit(t, at(i)).to == at(k + 1),
{
    lemma_lacks(t, k, Tok::Rbrace);
}

/// An error in a constant is passed on where the constant stands in a guard.
pub proof fn what_a_constant_in_a_guard_needs(t: Toks, i: nat)
    requires
        !is_any_name(t, i),
        !is_tok(t, i, Tok::Lbrace),
    ensures
        passes_on(guard_unit(t, at(i)), const_value(t, at(i))),
{
}

/// An error in what stands between operators is passed on.
pub proof fn what_a_unit_of_a_guard_needs(
    t: Toks,
    c: Cursor,
    units: Seq<GuardView>,
    ops: Seq<Op>,
)
    requires
        c.at <= t.len(),
    ensures
        passes_on(guard_chain(t, c, units, ops), guard_unit(t, c)),
{
    guard_unit_is_found(t, c);
}

/// `if` without anything behind it that can be a guard is no guard.
pub proof fn if_without_a_guard(t: Toks, i: nat, j: nat)
    requires
        is_tok(t, i, Tok::If),
        guard_unit(t, at(i + 1)) == found(None::<GuardView>, at(j)),
    ensures
        guard(t, at(i), false) == found(None::<GuardView>, at(j)),
{
    guard_unit_is_found(t, at(i + 1));
    assert(guard_chain(t, at(i + 1), Seq::empty(), Seq::empty()) == found(
        None::<GuardView>,
        at(j),
    ));
}

/// An operator in a guard needs something behind it, and a guard is not the end of the input. The
/// error is located at the last operator that has been read, or at offset 0 if there is none.
pub proof fn what_a_guard_needs_behind_it(
    t: Toks,
    i: nat,
    units: Seq<GuardView>,
    ops: Seq<Op>,
    unit: GuardView,
    j: nat,
)
    requires
        i <= t.len(),
    ensures
        ({
            let whole = guard_chain(t, at(i), units, ops);
            let location = if ops.len() > 0 {
                SrcSpan { start: ops.last().0.0, end: ops.last().0.2 }
            } else {
                SrcSpan { start: 0, end: 0 }
            };
            &&& guard_unit(t, at(i)) == found(None::<GuardView>, at(j)) && units.len() > 0
                ==> whole == error_at::<Option<GuardView>>(
                ParseErrorType::OpNakedRight,
                location,
                at(j),
            )
            &&& guard_unit(t, at(i)) == found(Some(unit), at(j)) && (j >= t.len()
                || t[j as int] is None) ==> whole == error_at::<Option<GuardView>>(
                ParseErrorType::OpNakedRight,
                location,
                at(j),
            )
        }),
{
    guard_unit_is_found(t, at(i));
    assert(last_op_span(ops) == if ops.len() > 0 {
        SrcSpan { start: ops.last().0.0, end: ops.last().0.2 }
    } else {
        SrcSpan { start: 0, end: 0 }
    });
}

} // verus!
