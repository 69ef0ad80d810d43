//! Where the errors in segments of bit strings are located.

use crate::ast::SrcSpan;
use crate::grammar::basics::Step;
use crate::grammar::segments::{segment, segment_option, segment_option_in};
use crate::laws::spans::{all_fit, error_fits, errors_of_a_series};
use crate::model::Text;
use crate::stream::{next, Cursor, Toks};
use crate::token::Tok;
use vstd::prelude::*;

verus! {

/// If the errors in its value and in the arguments of its options are located within the bound of
/// the tokens, so are all errors in a segment.
pub proof fn errors_in_segments_are_located<V>(
    bound: nat,
    first: Step<Option<V>>,
    arg: spec_fn(Cursor) -> Step<V>,
    number: spec_fn(Text, usize, usize) -> V,
    location: spec_fn(V) -> SrcSpan,
    t: Toks,
)
    requires
        all_fit(bound, t),
        error_fits(bound, first),
        forall|d: Cursor| error_fits(bound, #[trigger] arg(d)),
    ensures
        error_fits(bound, segment(first, arg, number, location, t)),
{
    let p = segment_option_in(arg, number, t);
    assert forall|d: Cursor| error_fits(bound, #[trigger] p(d)) by {
        assert(error_fits(bound, arg(next(t, next(t, d)))));
        assert(error_fits(bound, segment_option(arg, number, t, d)));
    }
    errors_of_a_series(bound, p, t, Some(Tok::Minus), Seq::empty(), next(t, first.to));
}

} // verus!
