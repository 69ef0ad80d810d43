//! Laws of locations: errors point into the source text.
//!
//! The source text is known by a bound: no token starts or ends behind it. Then no error is located
//! behind it either.

use crate::ast::SrcSpan;
use crate::grammar::basics::{series, Step};
use crate::stream::{after, ahead, next, Cursor, Toks};
use crate::token::{Spanned, Tok};
use vstd::prelude::*;

pub mod constants;
pub mod exprs;
pub mod guards;
pub mod inputs;
pub mod patterns;
pub mod segments;
pub mod statements;
pub mod types;

verus! {

/// Whether a location lies within a bound.
pub open spec fn within(bound: nat, location: SrcSpan) -> bool {
    location.start <= bound && location.end <= bound
}

/// Whether a token lies within a bound. Of `/.`, the byte behind its slash does too, and a closing
/// bracket ends behind the first byte.
pub open spec fn fits(bound: nat, spanned: Spanned) -> bool {
    &&& spanned.0 <= bound
    &&& spanned.2 <= bound
    &&& spanned.1 is SlashDot ==> spanned.0 < bound
    &&& spanned.1 is Rsqb ==> spanned.2 > 0
}

/// Whether all tokens of a stream lie within a bound.
pub open spec fn all_fit(bound: nat, t: Toks) -> bool {
    forall|i: int|
        0 <= i < t.len() ==> ((#[trigger] t[i]) matches Some(spanned) ==> fits(bound, spanned))
}

/// Whether the error of a step, if it has one, is located within a bound.
pub open spec fn error_fits<A>(bound: nat, step: Step<A>) -> bool {
    step.res matches Err(error) ==> within(bound, error.location)
}

/// A series of steps whose errors lie within a bound fails within it.
pub proof fn errors_of_a_series<A>(
    bound: nat,
    p: spec_fn(Cursor) -> Step<Option<A>>,
    t: Toks,
    sep: Option<Tok>,
    before: Seq<A>,
    c: Cursor,
)
    requires
        all_fit(bound, t),
        forall|d: Cursor| error_fits(bound, #[trigger] p(d)),
    ensures
        error_fits(bound, series(p, t, sep, before, c)),
    decreases ahead(t, c),
{
    let item = p(c);
    if let Ok(Some(value)) = item.res {
        let longer = before.push(value);
        if c.at < t.len() {
            match sep {
                None => {
                    errors_of_a_series(bound, p, t, sep, longer, after(t, c, item.to));
                },
                Some(_) => {
                    errors_of_a_series(bound, p, t, sep, longer, after(t, c, next(t, item.to)));
                },
            }
        }
    }
}

} // verus!
