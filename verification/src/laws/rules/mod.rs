//! Laws of what each row of tokens stands for: the rules of the language, token by token.
//!
//! Each rule names the tokens that stand in a row, says what is found at the places between them,
//! and gives the tree that the whole row stands for, or the error that it leads to.

use crate::error::ErrorView;
use crate::grammar::basics::{found, one, series, Step};
use crate::grammar::types::ty;
use crate::laws::places::advances;
use crate::laws::separators::{a_separator_may_follow_the_last_thing, separated};
use crate::model::{Text, TypeView};
use crate::stream::{next, Cursor, Toks};
use crate::token::Tok;
use vstd::prelude::*;

pub mod calls;
pub mod constants;
pub mod errors;
pub mod exprs;
pub mod functions;
pub mod guards;
pub mod patterns;
pub mod rows;
pub mod segments;
pub mod sequences;
pub mod statements;
pub mod tokens;
pub mod types;

verus! {

/// The place behind the first `i` tokens.
pub open spec fn at(i: nat) -> Cursor {
    Cursor { at: i, lost: false }
}

/// Whether a token stands at a position.
pub open spec fn is_tok(t: Toks, i: nat, tok: Tok) -> bool {
    &&& i < t.len()
    &&& t[i as int] matches Some((_, other, _)) && other == tok
}

/// Whether a name that starts with a lower case letter stands at a position.
pub open spec fn is_name(t: Toks, i: nat, text: Text) -> bool {
    &&& i < t.len()
    &&& t[i as int] matches Some((_, Tok::Name { name }, _)) && name@ == text
}

/// Whether a name that starts with an upper case letter stands at a position.
pub open spec fn is_upname(t: Toks, i: nat, text: Text) -> bool {
    &&& i < t.len()
    &&& t[i as int] matches Some((_, Tok::UpName { name }, _)) && name@ == text
}

/// Whether a name that starts with an underscore stands at a position.
pub open spec fn is_discard(t: Toks, i: nat, text: Text) -> bool {
    &&& i < t.len()
    &&& t[i as int] matches Some((_, Tok::DiscardName { name }, _)) && name@ == text
}

/// Whether an integer stands at a position.
pub open spec fn is_int(t: Toks, i: nat, text: Text) -> bool {
    &&& i < t.len()
    &&& t[i as int] matches Some((_, Tok::Int { value }, _)) && value@ == text
}

/// Whether a number with a fraction stands at a position.
pub open spec fn is_float(t: Toks, i: nat, text: Text) -> bool {
    &&& i < t.len()
    &&& t[i as int] matches Some((_, Tok::Float { value }, _)) && value@ == text
}

/// Whether a string stands at a position.
pub open spec fn is_string(t: Toks, i: nat, text: Text) -> bool {
    &&& i < t.len()
    &&& t[i as int] matches Some((_, Tok::String { value }, _)) && value@ == text
}

/// Where the token at a position begins in the source text.
pub open spec fn begin(t: Toks, i: nat) -> usize {
    match t[i as int] {
        Some((start, _, _)) => start,
        None => 0,
    }
}

/// Where the token at a position ends in the source text.
pub open spec fn end(t: Toks, i: nat) -> usize {
    match t[i as int] {
        Some((_, _, end)) => end,
        None => 0,
    }
}

/// Whether any name that starts with a lower case letter stands at a position.
pub open spec fn is_any_name(t: Toks, i: nat) -> bool {
    &&& i < t.len()
    &&& t[i as int] matches Some((_, Tok::Name { .. }, _))
}

/// Whether a label and a colon stand at a position, or none.
pub open spec fn labelled(t: Toks, i: nat, label: Option<Text>) -> bool {
    match label {
        Some(name) => is_name(t, i, name) && is_tok(t, i + 1, Tok::Colon),
        None => !(is_any_name(t, i) && is_tok(t, i + 1, Tok::Colon)),
    }
}

/// The position behind a label and its colon.
pub open spec fn behind_label(i: nat, label: Option<Text>) -> nat {
    if label is Some {
        i + 2
    } else {
        i
    }
}

/// Whether a type stands behind the token that announces it, up to a position, or no such token is
/// there.
pub open spec fn annotated(
    t: Toks,
    i: nat,
    tok: Tok,
    for_const: bool,
    annotation: Option<TypeView>,
    j: nat,
) -> bool {
    match annotation {
        Some(typ) => is_tok(t, i, tok) && ty(t, at(i + 1), for_const) == found(Some(typ), at(j)),
        None => !is_tok(t, i, tok) && j == i,
    }
}

/// Things one after another, with the positions at which each starts and stops.
pub struct Row<A> {
    pub starts: Seq<nat>,
    pub stops: Seq<nat>,
    pub things: Seq<A>,
}

impl<A> Row<A> {
    /// Whether each thing has its positions.
    pub open spec fn fits(self) -> bool {
        self.starts.len() == self.things.len() && self.stops.len() == self.things.len()
    }
}

/// Whether a row of things is found from one position up to another, with one separator between
/// each two of them and possibly one behind the last.
pub open spec fn listed<A>(
    t: Toks,
    p: spec_fn(Cursor) -> Step<Option<A>>,
    tok: Tok,
    open: nat,
    close: nat,
    row: Row<A>,
) -> bool {
    let n = row.things.len();
    &&& row.fits()
    &&& n == 0 ==> close == open
    &&& n > 0 ==> {
        &&& row.starts[0] == open
        &&& close == row.stops[n - 1] || is_tok(t, row.stops[n - 1], tok) && close == row.stops[n
            - 1] + 1
    }
    &&& forall|i: int|
        #![trigger row.things[i]]
        0 <= i < n ==> {
            &&& p(at(row.starts[i])) == found(Some(row.things[i]), at(row.stops[i]))
            &&& !is_tok(t, row.starts[i], tok)
        }
    &&& forall|i: int|
        #![trigger row.things[i]]
        0 <= i < n - 1 ==> {
            &&& is_tok(t, row.stops[i], tok)
            &&& row.starts[i + 1] == row.stops[i] + 1
        }
}

/// Whether a row of things is found from one position up to another, one directly behind the other.
pub open spec fn in_a_row<A>(
    p: spec_fn(Cursor) -> Step<Option<A>>,
    open: nat,
    close: nat,
    row: Row<A>,
) -> bool {
    let n = row.things.len();
    &&& row.fits()
    &&& n == 0 ==> close == open
    &&& n > 0 ==> row.starts[0] == open && row.stops[n - 1] == close
    &&& forall|i: int|
        #![trigger row.things[i]]
        0 <= i < n ==> p(at(row.starts[i])) == found(Some(row.things[i]), at(row.stops[i]))
    &&& forall|i: int| #![trigger row.things[i]] 0 <= i < n - 1 ==> row.starts[i + 1] == row.stops[i]
}

/// Whether a separator is a token without text.
pub open spec fn is_mark(tok: Tok) -> bool {
    !(tok is Name || tok is UpName || tok is DiscardName || tok is Int || tok is Float
        || tok is String)
}

pub(crate) proof fn lemma_one(t: Toks, i: nat, tok: Tok)
    requires
        is_mark(tok),
    ensures
        one(t, at(i), tok) is Some <==> is_tok(t, i, tok),
        is_tok(t, i, tok) ==> one(t, at(i), tok) == Some((begin(t, i), end(t, i))),
        i < t.len() ==> next(t, at(i)) == at(i + 1),
{
}

/// A row of things with separators is the series of these things.
pub(crate) proof fn lemma_listed<A>(
    t: Toks,
    q: spec_fn(Cursor) -> Step<Option<A>>,
    p: spec_fn(Cursor) -> Step<Option<A>>,
    tok: Tok,
    open: nat,
    close: nat,
    row: Row<A>,
)
    requires
        listed(t, q, tok, open, close, row),
        is_mark(tok),
        open <= t.len(),
        forall|d: Cursor|
            open <= d.at <= t.len() ==> #[trigger] p(d) == q(d) && advances(t, d, p(d)),
        row.things.len() == 0 || close != row.stops.last() ==> q(at(close)) == found(
            None::<A>,
            at(close),
        ),
        !is_tok(t, close, tok),
    ensures
        series(p, t, Some(tok), Seq::empty(), at(open)) == found(row.things, at(close)),
        open <= close <= t.len(),
{
    let n = row.things.len();
    if n == 0 {
        assert(row.things =~= Seq::empty());
        assert(p(at(open)) == q(at(open)));
    } else {
        let places = Seq::new(n, |i: int| at(row.starts[i]));
        lemma_starts(t, q, p, tok, open, close, row, n - 1);
        let things = row.things;
        assert forall|i: int| 0 <= i < things.len() implies p(places[i]).res == Ok::<_, ErrorView>(
            Some(#[trigger] things[i]),
        ) by {
            lemma_starts(t, q, p, tok, open, close, row, i);
        }
        assert forall|i: int|
            #![trigger places[i]]
            0 <= i < things.len() - 1 implies {
            let stop = p(places[i]).to;
            &&& one(t, stop, tok) is Some
            &&& places[i + 1] == next(t, stop)
            &&& one(t, places[i + 1], tok) is None
        } by {
            lemma_starts(t, q, p, tok, open, close, row, i);
            lemma_starts(t, q, p, tok, open, close, row, i + 1);
            lemma_one(t, row.stops[i], tok);
            lemma_one(t, row.starts[i + 1], tok);
            assert(places[i] == at(row.starts[i]));
            assert(places[i + 1] == at(row.starts[i + 1]));
        }
        assert(things.len() > 0);
        assert(places.len() == things.len());
        assert(separated(p, t, tok, places, things));
        a_separator_may_follow_the_last_thing(p, t, tok, places, row.things);
        let stop = row.stops[n - 1];
        assert(places.last() == at(row.starts[n - 1]));
        assert(advances(t, places.last(), p(places.last())));
        if close == stop {
            assert(one(t, at(stop), tok) is None);
        } else {
            assert(one(t, at(stop), tok) is Some);
            assert(next(t, at(stop)) == at(close));
            assert(one(t, at(close), tok) is None);
            assert(p(at(close)) == q(at(close)));
        }
    }
}

proof fn lemma_starts<A>(
    t: Toks,
    q: spec_fn(Cursor) -> Step<Option<A>>,
    p: spec_fn(Cursor) -> Step<Option<A>>,
    tok: Tok,
    open: nat,
    close: nat,
    row: Row<A>,
    i: int,
)
    requires
        listed(t, q, tok, open, close, row),
        open <= t.len(),
        forall|d: Cursor|
            open <= d.at <= t.len() ==> #[trigger] p(d) == q(d) && advances(t, d, p(d)),
        0 <= i < row.things.len(),
    ensures
        open <= row.starts[i] < row.stops[i] <= t.len(),
        p(at(row.starts[i])) == q(at(row.starts[i])),
        p(at(row.starts[i])) == found(Some(row.things[i]), at(row.stops[i])),
        !is_tok(t, row.starts[i], tok),
        i < row.things.len() - 1 ==> is_tok(t, row.stops[i], tok) && row.starts[i + 1]
            == row.stops[i] + 1,
    decreases i,
{
    let thing = row.things[i];
    if i > 0 {
        lemma_starts(t, q, p, tok, open, close, row, i - 1);
    }
    assert(p(at(row.starts[i])) == q(at(row.starts[i])));
    assert(advances(t, at(row.starts[i]), p(at(row.starts[i]))));
}

/// A row of things without separators is the series of these things.
pub(crate) proof fn lemma_in_a_row<A>(
    t: Toks,
    q: spec_fn(Cursor) -> Step<Option<A>>,
    p: spec_fn(Cursor) -> Step<Option<A>>,
    open: nat,
    close: nat,
    row: Row<A>,
    k: int,
)
    requires
        in_a_row(q, open, close, row),
        open <= t.len(),
        forall|d: Cursor|
            open <= d.at <= t.len() ==> #[trigger] p(d) == q(d) && advances(t, d, p(d)),
        q(at(close)) == found(None::<A>, at(close)),
        0 <= k <= row.things.len(),
        k < row.things.len() ==> open <= row.starts[k] <= t.len(),
        k == row.things.len() ==> open <= close <= t.len(),
    ensures
        series(
            p,
            t,
            None,
            row.things.take(k),
            at(
                if k < row.things.len() {
                    row.starts[k]
                } else {
                    close
                },
            ),
        ) == found(row.things, at(close)),
        open <= close <= t.len(),
    decreases row.things.len() - k,
{
    let n = row.things.len();
    if k == n {
        assert(row.things.take(k) =~= row.things);
        assert(p(at(close)) == q(at(close)));
    } else {
        let thing = row.things[k];
        let here = at(row.starts[k]);
        assert(p(here) == q(here));
        assert(advances(t, here, p(here)));
        assert(row.things.take(k).push(row.things[k]) =~= row.things.take(k + 1));
        lemma_in_a_row(t, q, p, open, close, row, k + 1);
    }
}

} // verus!
