//! Laws of what is needed: an error in a part is the error of the whole, and a mark that has to
//! follow a part and does not is an error at the token in its place.

use crate::grammar::basics::{expect_one, failed, series, Step};
use crate::laws::rules::{at, is_mark, is_tok, lemma_one};
use crate::laws::rules::errors::unexpected_at;
use crate::stream::{Cursor, Toks};
use crate::token::{quoted, Tok};
use vstd::prelude::*;

pub mod constants;
pub mod exprs;
pub mod functions;
pub mod guards;
pub mod patterns;
pub mod segments;
pub mod statements;
pub mod types;

verus! {

/// Whether an error in a part is also that of the whole, which then ends where the part does.
pub open spec fn passes_on<A, B>(whole: Step<A>, part: Step<B>) -> bool {
    part.res matches Err(error) ==> whole == failed::<A>(error, part.to)
}

/// Whether a part is without error and ends at a position.
pub open spec fn stops<A>(part: Step<A>, k: nat) -> bool {
    part.res is Ok && part.to == at(k)
}

/// Whether the error is that another token stands at a position than the one expected, or none.
pub open spec fn lacks<A>(whole: Step<A>, t: Toks, k: nat, tok: Tok) -> bool {
    whole.res == Err::<A, _>(unexpected_at(t, k, seq![quoted(tok)]))
}

/// Whether an error in a part is that of the whole, and otherwise a token has to follow the part.
pub open spec fn needs<A, B>(whole: Step<A>, part: Step<B>, t: Toks, k: nat, tok: Tok) -> bool {
    &&& passes_on(whole, part)
    &&& stops(part, k) && !is_tok(t, k, tok) ==> lacks(whole, t, k, tok)
}

pub(crate) proof fn lemma_lacks(t: Toks, k: nat, tok: Tok)
    requires
        is_mark(tok),
    ensures
        !is_tok(t, k, tok) ==> lacks(expect_one(t, at(k), tok), t, k, tok),
        is_tok(t, k, tok) ==> stops(expect_one(t, at(k), tok), k + 1),
{
    lemma_one(t, k, tok);
}

/// An error in the first thing of a series is that of the series, whether or not there is a
/// separator.
pub proof fn an_error_ends_a_series<A>(
    p: spec_fn(Cursor) -> Step<Option<A>>,
    t: Toks,
    sep: Option<Tok>,
    before: Seq<A>,
    c: Cursor,
)
    ensures
        passes_on(series(p, t, sep, before, c), p(c)),
{
}

} // verus!
