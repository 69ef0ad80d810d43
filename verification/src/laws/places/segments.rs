//! How far looking for the segments of bit strings gets.

use crate::ast::SrcSpan;
use crate::grammar::basics::{one, Step};
use crate::grammar::segments::{segment, segment_option, segment_option_in};
use crate::laws::places::{advances, finds, moves, series_moves};
use crate::model::Text;
use crate::stream::{next, Cursor, Toks};
use crate::token::Tok;
use vstd::prelude::*;

verus! {

/// If looking for its value does so, and looking for the arguments of its options never goes back,
/// looking for a segment gets ahead if it finds one, stays where it is if not, and never goes back
/// nor beyond the last token.
pub proof fn segment_is_found<V>(
    first: Step<Option<V>>,
    arg: spec_fn(Cursor) -> Step<V>,
    number: spec_fn(Text, usize, usize) -> V,
    location: spec_fn(V) -> SrcSpan,
    t: Toks,
    c: Cursor,
)
    requires
        finds(t, c, first),
        forall|d: Cursor| c.at <= d.at <= t.len() ==> moves(t, d, #[trigger] arg(d)),
    ensures
        finds(t, c, segment(first, arg, number, location, t)),
{
    if first.res matches Ok(Some(_)) && one(t, first.to, Tok::Colon) is Some {
        let p = segment_option_in(arg, number, t);
        let inner = next(t, first.to);
        assert forall|d: Cursor| inner.at <= d.at <= t.len() implies advances(
            t,
            d,
            #[trigger] p(d),
        ) by {
            segment_option_is_found(arg, number, t, d);
        }
        series_moves(p, t, Some(Tok::Minus), Seq::empty(), inner);
    }
}

pub(crate) proof fn segment_option_is_found<V>(
    arg: spec_fn(Cursor) -> Step<V>,
    number: spec_fn(Text, usize, usize) -> V,
    t: Toks,
    c: Cursor,
)
    requires
        c.at <= t.len(),
        forall|d: Cursor| c.at <= d.at <= t.len() ==> moves(t, d, #[trigger] arg(d)),
    ensures
        advances(t, c, segment_option(arg, number, t, c)),
{
    assert(moves(t, next(t, next(t, c)), arg(next(t, next(t, c)))));
}

} // verus!
