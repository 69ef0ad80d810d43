//! The rules of guards.

use crate::error::ParseErrorType;
use crate::grammar::basics::{error_at, found, span};
use crate::grammar::constants::const_value;
use crate::grammar::guards::{guard, guard_unit};

use crate::laws::rules::{at, begin, end, is_int, is_name, is_tok};
use crate::model::{ConstantView, GuardView, Text};
use crate::number::decimal;
use crate::stream::Toks;
use crate::token::Tok;
use vstd::prelude::*;

verus! {

/// A name is a variable.
pub proof fn a_name_is_a_guard(t: Toks, i: nat, name: Text)
    requires
        is_name(t, i, name),
        !is_tok(t, i + 1, Tok::Dot),
    ensures
        guard_unit(t, at(i)) == found(
            Some(GuardView::Var { location: span(begin(t, i), end(t, i)), name }),
            at(i + 1),
        ),
{
}

/// A name, a dot and a number are an element of a tuple, located from the dot on. A number that is
/// too large is an error at the name, and anything else but a number an error at that.
pub proof fn an_element_of_a_tuple_is_a_guard(t: Toks, i: nat, name: Text, value: Text)
    requires
        is_name(t, i, name),
        is_tok(t, i + 1, Tok::Dot),
        i + 2 < t.len(),
        t[i + 2int] is Some,
    ensures
        is_int(t, i + 2, value) ==> match decimal(value) {
            Some(index) => guard_unit(t, at(i)) == found(
                Some(
                    GuardView::TupleIndex {
                        location: span(begin(t, i + 1), end(t, i + 2)),
                        index,
                        tuple: Box::new(
                            GuardView::Var { location: span(begin(t, i), end(t, i)), name },
                        ),
                    },
                ),
                at(i + 3),
            ),
            None => guard_unit(t, at(i)) == error_at::<Option<GuardView>>(
                ParseErrorType::InvalidTupleAccess,
                span(begin(t, i), end(t, i)),
                at(i + 3),
            ),
        },
        !(t[i + 2int] matches Some((_, Tok::Int { .. }, _))) ==> guard_unit(t, at(i)) == error_at::<
            Option<GuardView>,
        >(
            ParseErrorType::InvalidTupleAccess,
            span(begin(t, i + 2), end(t, i + 2)),
            at(i + 3),
        ),
{
}

/// A guard in braces is that guard; it needs no `if`.
pub proof fn a_guard_in_braces(t: Toks, i: nat, inner: GuardView, j: nat)
    requires
        is_tok(t, i, Tok::Lbrace),
        guard(t, at(i + 1), true) == found(Some(inner), at(j)),
        is_tok(t, j, Tok::Rbrace),
    ensures
        guard_unit(t, at(i)) == found(Some(inner), at(j + 1)),
{
}

/// A constant that starts with neither a name nor a brace is a guard.
pub proof fn a_constant_is_a_guard(t: Toks, i: nat, constant: ConstantView, j: nat)
    requires
        const_value(t, at(i)) == found(Some(constant), at(j)),
        i < t.len(),
        !(t[i as int] matches Some((_, Tok::Name { .. }, _))),
        !is_tok(t, i, Tok::Lbrace),
    ensures
        guard_unit(t, at(i)) == found(Some(GuardView::Constant(constant)), at(j)),
{
}

/// Without `if` there is no guard, unless in braces.
pub proof fn a_guard_needs_if(t: Toks, i: nat)
    requires
        !is_tok(t, i, Tok::If),
    ensures
        guard(t, at(i), false) == found(None::<GuardView>, at(i)),
{
}

} // verus!
