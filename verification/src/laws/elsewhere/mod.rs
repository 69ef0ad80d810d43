//! Laws of what parsing depends on: the tokens that it reads and the one behind them.
//!
//! Where the same tokens stand elsewhere, in the same input or in another one, the same is found
//! there. What stands before them is of no account, and neither is what stands behind the token
//! at which parsing stops. Where the tokens agree up to the end of both inputs, the errors
//! agree too.

use crate::grammar::basics::{one, series, Step};
use crate::laws::places::{advances, series_moves};
use crate::stream::{next, token_at, Cursor, Toks};
use crate::token::Tok;
use vstd::prelude::*;

pub mod constants;
pub mod exprs;
pub mod guards;
pub mod patterns;
pub mod segments;
pub mod types;

verus! {

/// The first `len` tokens of one stream, which stand in another one too, `shift` places further on.
pub struct Stretch {
    pub here: Toks,
    pub there: Toks,
    pub shift: nat,
    pub len: nat,
}

impl Stretch {
    /// Whether the tokens stand in both streams.
    pub open spec fn fits(self) -> bool {
        &&& self.len <= self.here.len()
        &&& self.shift + self.len <= self.there.len()
        &&& forall|i: int|
            0 <= i < self.len ==> token_at(self.there, i + self.shift) == #[trigger] token_at(
                self.here,
                i,
            )
    }

    /// Whether both streams end behind them.
    pub open spec fn ends(self) -> bool {
        &&& self.len == self.here.len()
        &&& self.shift + self.len == self.there.len()
    }

    /// The place in the second stream that is the same as one in the first.
    pub open spec fn across(self, c: Cursor) -> Cursor {
        Cursor { at: c.at + self.shift, lost: c.lost }
    }

    /// Whether a step in the first stream depends on nothing but the tokens that stand in both: it
    /// succeeds and stops at one of them, or there are no others.
    pub open spec fn covers<A>(self, step: Step<A>) -> bool {
        self.ends() || step.res is Ok && step.to.at < self.len
    }

    /// Whether a step in the second stream leads to the same as one in the first, if that depends
    /// on nothing else.
    pub open spec fn same<A>(self, here: Step<A>, there: Step<A>) -> bool {
        self.covers(here) ==> there == (Step { res: here.res, to: self.across(here.to) })
    }

    /// Whether a step that ends in a token which it needs depends on nothing but the tokens that
    /// stand in both streams: that token may be the last of them.
    pub open spec fn encloses<A>(self, step: Step<A>) -> bool {
        self.ends() || step.res is Ok && step.to.at <= self.len
    }

    /// Whether such a step in the second stream leads to the same as one in the first, if that
    /// depends on nothing else.
    pub open spec fn same_up_to_its_end<A>(self, here: Step<A>, there: Step<A>) -> bool {
        self.encloses(here) ==> there == (Step { res: here.res, to: self.across(here.to) })
    }
}

/// If the things in a series are the same elsewhere, so is the series.
pub proof fn series_elsewhere<A>(
    s: Stretch,
    p: spec_fn(Cursor) -> Step<Option<A>>,
    q: spec_fn(Cursor) -> Step<Option<A>>,
    sep: Option<Tok>,
    before: Seq<A>,
    c: Cursor,
)
    requires
        s.fits(),
        c.at <= s.here.len(),
        forall|d: Cursor|
            c.at <= d.at <= s.here.len() ==> advances(s.here, d, #[trigger] p(d)) && s.same(
                p(d),
                q(s.across(d)),
            ),
    ensures
        s.same(series(p, s.here, sep, before, c), series(q, s.there, sep, before, s.across(c))),
    decreases s.here.len() - c.at,
{
    let (t, u) = (s.here, s.there);
    let item = p(c);
    series_moves(p, t, sep, before, c);
    if let Ok(Some(value)) = item.res {
        let longer = before.push(value);
        match sep {
            None => {
                series_moves(p, t, sep, longer, item.to);
                series_elsewhere(s, p, q, sep, longer, item.to);
            },
            Some(tok) => {
                let behind = next(t, item.to);
                if one(t, item.to, tok) is Some && one(t, behind, tok) is None {
                    series_moves(p, t, sep, longer, behind);
                    series_elsewhere(s, p, q, sep, longer, behind);
                }
            },
        }
    }
}

} // verus!
