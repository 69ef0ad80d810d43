//! Segments of bit strings elsewhere.

use crate::ast::SrcSpan;
use crate::grammar::basics::{one, Step};
use crate::grammar::segments::{segment, segment_option, segment_option_in};
use crate::laws::elsewhere::{series_elsewhere, Stretch};
use crate::laws::places::{advances, finds, moves, series_moves};
use crate::laws::places::segments::{segment_is_found, segment_option_is_found};
use crate::model::Text;
use crate::stream::{next, Cursor};
use crate::token::Tok;
use vstd::prelude::*;

verus! {

/// If its value and the arguments of its options are the same elsewhere, so is a segment.
pub proof fn segments_are_the_same_elsewhere<V>(
    s: Stretch,
    firsts: (Step<Option<V>>, Step<Option<V>>),
    args: (spec_fn(Cursor) -> Step<V>, spec_fn(Cursor) -> Step<V>),
    number: spec_fn(Text, usize, usize) -> V,
    location: spec_fn(V) -> SrcSpan,
    c: Cursor,
)
    requires
        s.fits(),
        finds(s.here, c, firsts.0),
        s.same(firsts.0, firsts.1),
        forall|d: Cursor|
            c.at <= d.at <= s.here.len() ==> moves(s.here, d, #[trigger] (args.0)(d)) && s.same(
                (args.0)(d),
                (args.1)(s.across(d)),
            ),
    ensures
        s.same(
            segment(firsts.0, args.0, number, location, s.here),
            segment(firsts.1, args.1, number, location, s.there),
        ),
{
    let t = s.here;
    let (first, arg) = (firsts.0, args.0);
    segment_is_found(first, arg, number, location, t, c);
    if first.res matches Ok(Some(_)) && one(t, first.to, Tok::Colon) is Some {
        let p = segment_option_in(arg, number, t);
        let q = segment_option_in(args.1, number, s.there);
        let inner = next(t, first.to);
        assert forall|d: Cursor| inner.at <= d.at <= t.len() implies advances(
            t,
            d,
            #[trigger] p(d),
        ) && s.same(p(d), q(s.across(d))) by {
            segment_option_is_found(arg, number, t, d);
            lemma_segment_option(s, args, number, d);
        }
        series_moves(p, t, Some(Tok::Minus), Seq::empty(), inner);
        series_elsewhere(s, p, q, Some(Tok::Minus), Seq::empty(), inner);
    }
}

proof fn lemma_segment_option<V>(
    s: Stretch,
    args: (spec_fn(Cursor) -> Step<V>, spec_fn(Cursor) -> Step<V>),
    number: spec_fn(Text, usize, usize) -> V,
    c: Cursor,
)
    requires
        s.fits(),
        c.at <= s.here.len(),
        forall|d: Cursor|
            c.at <= d.at <= s.here.len() ==> moves(s.here, d, #[trigger] (args.0)(d)) && s.same(
                (args.0)(d),
                (args.1)(s.across(d)),
            ),
    ensures
        s.same(
            segment_option(args.0, number, s.here, c),
            segment_option(args.1, number, s.there, s.across(c)),
        ),
{
    let t = s.here;
    segment_option_is_found(args.0, number, t, c);
    let inner = next(t, next(t, c));
    assert(moves(t, inner, (args.0)(inner)));
}

} // verus!
