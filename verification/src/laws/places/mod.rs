//! Laws of places: how far parsing gets.
//!
//! Parsing never goes back and never beyond the last token. Where it finds something it gets ahead,
//! where it finds nothing it stays where it is, and a token is given up only at an error.

use crate::error::ParseError;
use crate::grammar::basics::{found, nothing, one, series, skip_one, something, Step};
use crate::parser::{did_find, Parser};
use crate::stream::{after, ahead, next, Cursor, Toks};
use crate::token::Tok;
use vstd::prelude::*;

pub mod constants;
pub mod exprs;
pub mod guards;
pub mod patterns;
pub mod segments;
pub mod statements;
pub mod types;

verus! {

/// Whether a step from a place goes neither back nor beyond the last token, and gives up no token
/// unless it fails.
pub open spec fn moves<A>(t: Toks, c: Cursor, step: Step<A>) -> bool {
    &&& c.at <= step.to.at <= t.len()
    &&& step.res is Ok && !c.lost ==> !step.to.lost
}

/// Whether a step from a place moves, and gets ahead if it finds something.
pub open spec fn advances<A>(t: Toks, c: Cursor, step: Step<Option<A>>) -> bool {
    &&& moves(t, c, step)
    &&& something(step) ==> c.at < step.to.at
}

/// Whether a step from a place moves, gets ahead if it finds something, and stays if it finds
/// nothing.
pub open spec fn finds<A>(t: Toks, c: Cursor, step: Step<Option<A>>) -> bool {
    &&& advances(t, c, step)
    &&& nothing(step) ==> step.to == c
}

/// A parser that looks for something and finds nothing is as it was before.
pub proof fn nothing_found_leaves_the_parser_as_it_was<A: DeepView>(
    before: Parser,
    after: Parser,
    result: Result<Option<A>, ParseError>,
    step: Step<Option<A::V>>,
)
    requires
        before.wf(),
        did_find(before, after, result, step),
        finds(before.toks(), before.cursor(), step),
        result matches Ok(None),
    ensures
        after.input() == before.input(),
        after.cursor() == before.cursor(),
        after.held() == before.held(),
{
}

/// A token that may be there is taken out of the stream if it comes next; else the stream stays as
/// it is.
pub proof fn a_token_is_taken_or_left(t: Toks, c: Cursor, tok: Tok)
    ensures
        one(t, c, tok) is Some ==> skip_one(t, c, tok) == (Cursor { at: c.at + 1, lost: false }),
        one(t, c, tok) is None ==> skip_one(t, c, tok) == c,
{
}

/// What has been read stays at the front of a series.
pub proof fn series_only_grows<A>(
    p: spec_fn(Cursor) -> Step<Option<A>>,
    t: Toks,
    sep: Option<Tok>,
    before: Seq<A>,
    c: Cursor,
)
    ensures
        series(p, t, sep, before, c).res matches Ok(all) ==> before.is_prefix_of(all),
    decreases ahead(t, c),
{
    let item = p(c);
    if let Ok(Some(value)) = item.res {
        let longer = before.push(value);
        if c.at < t.len() {
            match sep {
                None => {
                    series_only_grows(p, t, sep, longer, after(t, c, item.to));
                },
                Some(tok) => {
                    series_only_grows(p, t, sep, longer, after(t, c, next(t, item.to)));
                },
            }
        }
        assert(series(p, t, sep, before, c).res matches Ok(all) ==> longer.is_prefix_of(all));
        assert(forall|all: Seq<A>| #[trigger]
            longer.is_prefix_of(all) ==> before.is_prefix_of(all)) by {
            assert forall|all: Seq<A>| #[trigger] longer.is_prefix_of(all) implies before.is_prefix_of(
                all,
            ) by {
                assert(before =~= longer.subrange(0, before.len() as int));
                assert(all.subrange(0, before.len() as int) =~= before);
            }
        }
    }
}

/// A series of steps that advance moves.
pub proof fn series_moves<A>(
    p: spec_fn(Cursor) -> Step<Option<A>>,
    t: Toks,
    sep: Option<Tok>,
    before: Seq<A>,
    c: Cursor,
)
    requires
        c.at <= t.len(),
        forall|d: Cursor| c.at <= d.at <= t.len() ==> advances(t, d, #[trigger] p(d)),
    ensures
        moves(t, c, series(p, t, sep, before, c)),
    decreases ahead(t, c),
{
    let item = p(c);
    if let Ok(Some(value)) = item.res {
        match sep {
            None => {
                series_moves(p, t, sep, before.push(value), item.to);
            },
            Some(tok) => {
                let behind = next(t, item.to);
                if one(t, item.to, tok) is Some && one(t, behind, tok) is None {
                    series_moves(p, t, sep, before.push(value), behind);
                }
            },
        }
    }
}

/// Whether a step finds things one after another at the given places, the last of which is behind
/// them.
pub open spec fn stand_at<A>(
    p: spec_fn(Cursor) -> Step<Option<A>>,
    places: Seq<Cursor>,
    things: Seq<A>,
) -> bool {
    &&& places.len() == things.len() + 1
    &&& forall|i: int|
        0 <= i < things.len() ==> p(places[i]) == found(Some(#[trigger] things[i]), places[i + 1])
}

/// The things in a series without separators stand one after another, from the place at which it
/// starts up to the one at which nothing more is found.
pub proof fn a_series_stands_in_a_row<A>(
    p: spec_fn(Cursor) -> Step<Option<A>>,
    t: Toks,
    c: Cursor,
)
    requires
        c.at <= t.len(),
        forall|d: Cursor| c.at <= d.at <= t.len() ==> finds(t, d, #[trigger] p(d)),
    ensures
        ({
            let step = series(p, t, None, Seq::empty(), c);
            step.res matches Ok(all) ==> exists|places: Seq<Cursor>| #[trigger]
                stand_at(p, places, all) && places[0] == c && places.last() == step.to
        }),
{
    let here = seq![c];
    assert(stand_at(p, here, Seq::<A>::empty()));
    lemma_stand_at(p, t, here, Seq::empty(), c);
}

proof fn lemma_stand_at<A>(
    p: spec_fn(Cursor) -> Step<Option<A>>,
    t: Toks,
    places: Seq<Cursor>,
    before: Seq<A>,
    c: Cursor,
)
    requires
        stand_at(p, places, before),
        places.last() == c,
        c.at <= t.len(),
        forall|d: Cursor| c.at <= d.at <= t.len() ==> finds(t, d, #[trigger] p(d)),
    ensures
        ({
            let step = series(p, t, None, before, c);
            step.res matches Ok(all) ==> exists|all_places: Seq<Cursor>| #[trigger]
                stand_at(p, all_places, all) && all_places[0] == places[0] && all_places.last()
                    == step.to
        }),
    decreases ahead(t, c),
{
    let step = series(p, t, None, before, c);
    let item = p(c);
    match item.res {
        Ok(Some(value)) => {
            let longer = places.push(item.to);
            let all = before.push(value);
            assert forall|i: int| 0 <= i < all.len() implies p(longer[i]) == found(
                Some(#[trigger] all[i]),
                longer[i + 1],
            ) by {
                if i < before.len() {
                    assert(all[i] == before[i]);
                }
            }
            assert(stand_at(p, longer, all));
            lemma_stand_at(p, t, longer, all, item.to);
            assert(step == series(p, t, None, all, item.to));
            assert(longer[0] == places[0]);
        },
        Ok(None) => {
            assert(stand_at(p, places, step.res->Ok_0));
        },
        Err(_) => {},
    }
}

} // verus!
