//! Laws of series with separators.

use crate::error::{ErrorView, ParseErrorType};
use crate::grammar::basics::{error_at, failed, found, one, series, span, Step};
use crate::laws::places::advances;
use crate::stream::{next, Cursor, Toks};
use crate::token::Tok;
use vstd::prelude::*;

verus! {

/// Whether a step finds things at the given places, with one separator between each two of them.
pub open spec fn separated<A>(
    p: spec_fn(Cursor) -> Step<Option<A>>,
    t: Toks,
    tok: Tok,
    places: Seq<Cursor>,
    things: Seq<A>,
) -> bool {
    &&& places.len() == things.len()
    &&& things.len() > 0
    &&& forall|i: int|
        0 <= i < things.len() ==> p(places[i]).res == Ok::<_, ErrorView>(
            Some(#[trigger] things[i]),
        )
    &&& forall|i: int|
        #![trigger things[i]]
        0 <= i < things.len() - 1 ==> {
            let end = p(places[i]).to;
            &&& one(t, end, tok) is Some
            &&& places[i + 1] == next(t, end)
            &&& one(t, places[i + 1], tok) is None
        }
}

/// A series holds the things that are found with one separator between each two of them. One more
/// separator may stand behind the last of them, where it is read. Two in a row are an error, and an
/// error in what is looked for behind a separator is that of the series. Where no separator
/// follows, nothing more is looked for.
pub proof fn a_separator_may_follow_the_last_thing<A>(
    p: spec_fn(Cursor) -> Step<Option<A>>,
    t: Toks,
    tok: Tok,
    places: Seq<Cursor>,
    things: Seq<A>,
)
    requires
        separated(p, t, tok, places, things),
        places[0].at <= t.len(),
        forall|d: Cursor| places[0].at <= d.at <= t.len() ==> advances(t, d, #[trigger] p(d)),
    ensures
        ({
            let whole = series(p, t, Some(tok), Seq::empty(), places[0]);
            let end = p(places.last()).to;
            let behind = next(t, end);
            &&& one(t, end, tok) is None ==> whole == found(things, end)
            &&& one(t, end, tok) is Some ==> match one(t, behind, tok) {
                Some((start, stop)) => whole == error_at::<Seq<A>>(
                    ParseErrorType::ExtraSeparator,
                    span(start, stop),
                    next(t, behind),
                ),
                None => match p(behind).res {
                    Ok(None) => whole == found(things, p(behind).to),
                    Ok(Some(_)) => true,
                    Err(error) => whole == failed::<Seq<A>>(error, p(behind).to),
                },
            }
        }),
{
    assert(things.take(0) =~= Seq::empty());
    lemma_from(p, t, tok, places, things, 0);
}

proof fn lemma_from<A>(
    p: spec_fn(Cursor) -> Step<Option<A>>,
    t: Toks,
    tok: Tok,
    places: Seq<Cursor>,
    things: Seq<A>,
    i: int,
)
    requires
        separated(p, t, tok, places, things),
        0 <= i < things.len(),
        places[0].at <= places[i].at <= t.len(),
        forall|d: Cursor| places[0].at <= d.at <= t.len() ==> advances(t, d, #[trigger] p(d)),
    ensures
        ({
            let whole = series(p, t, Some(tok), things.take(i), places[i]);
            let end = p(places.last()).to;
            let behind = next(t, end);
            &&& one(t, end, tok) is None ==> whole == found(things, end)
            &&& one(t, end, tok) is Some ==> match one(t, behind, tok) {
                Some((start, stop)) => whole == error_at::<Seq<A>>(
                    ParseErrorType::ExtraSeparator,
                    span(start, stop),
                    next(t, behind),
                ),
                None => match p(behind).res {
                    Ok(None) => whole == found(things, p(behind).to),
                    Ok(Some(_)) => true,
                    Err(error) => whole == failed::<Seq<A>>(error, p(behind).to),
                },
            }
        }),
    decreases things.len() - i,
{
    let c = places[i];
    let item = p(c);
    assert(item.res == Ok::<_, ErrorView>(Some(things[i])));
    assert(advances(t, c, item));
    assert(things.take(i).push(things[i]) =~= things.take(i + 1));
    if i < things.len() - 1 {
        lemma_from(p, t, tok, places, things, i + 1);
    } else {
        assert(things.take(i + 1) =~= things);
        let behind = next(t, item.to);
        if one(t, item.to, tok) is Some && one(t, behind, tok) is None {
            assert(series(p, t, Some(tok), things.take(i), c) == series(
                p,
                t,
                Some(tok),
                things,
                behind,
            ));
        }
    }
}

/// A series is the same with one more separator behind its last thing as without it, in whatever
/// input the things are found.
pub proof fn a_trailing_separator_changes_nothing<A>(
    p: spec_fn(Cursor) -> Step<Option<A>>,
    t: Toks,
    places: Seq<Cursor>,
    q: spec_fn(Cursor) -> Step<Option<A>>,
    u: Toks,
    others: Seq<Cursor>,
    tok: Tok,
    things: Seq<A>,
)
    requires
        separated(p, t, tok, places, things),
        places[0].at <= t.len(),
        forall|d: Cursor| places[0].at <= d.at <= t.len() ==> advances(t, d, #[trigger] p(d)),
        one(t, p(places.last()).to, tok) is None,
        separated(q, u, tok, others, things),
        others[0].at <= u.len(),
        forall|d: Cursor| others[0].at <= d.at <= u.len() ==> advances(u, d, #[trigger] q(d)),
        one(u, q(others.last()).to, tok) is Some,
        one(u, next(u, q(others.last()).to), tok) is None,
        q(next(u, q(others.last()).to)).res matches Ok(None),
    ensures
        series(p, t, Some(tok), Seq::empty(), places[0]).res == Ok::<_, ErrorView>(
            things,
        ),
        series(q, u, Some(tok), Seq::empty(), others[0]).res == Ok::<_, ErrorView>(
            things,
        ),
{
    a_separator_may_follow_the_last_thing(p, t, tok, places, things);
    a_separator_may_follow_the_last_thing(q, u, tok, others, things);
}

} // verus!
