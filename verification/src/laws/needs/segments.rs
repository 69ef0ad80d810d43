//! What segments of bit strings need.

use crate::ast::SrcSpan;
use crate::error::ErrorView;
use crate::grammar::basics::{series, Step};
use crate::grammar::segments::{segment, segment_option, segment_option_in};
use crate::laws::needs::{lemma_lacks, needs, passes_on};
use crate::laws::rules::{at, is_name, is_tok};
use crate::laws::rules::errors::unexpected_at;
use crate::model::{SegmentOptionView, Text};
use crate::stream::{Cursor, Toks};
use crate::token::Tok;
use vstd::prelude::*;

verus! {

/// An error in the value of a segment is passed on, and so is one in its options.
pub proof fn what_a_segment_needs<V>(
    first: Step<Option<V>>,
    v: V,
    arg: spec_fn(Cursor) -> Step<V>,
    number: spec_fn(Text, usize, usize) -> V,
    location: spec_fn(V) -> SrcSpan,
    t: Toks,
    k: nat,
)
    ensures
        passes_on(segment(first, arg, number, location, t), first),
        first.res == Ok::<_, ErrorView>(Some(v)) && first.to == at(k) && is_tok(
            t,
            k,
            Tok::Colon,
        ) ==> passes_on(
            segment(first, arg, number, location, t),
            series(
                segment_option_in(arg, number, t),
                t,
                Some(Tok::Minus),
                Seq::empty(),
                at(k + 1),
            ),
        ),
{
}

/// A parenthesis behind the name of an option needs an argument and a closing one.
pub proof fn what_an_option_needs<V>(
    arg: spec_fn(Cursor) -> Step<V>,
    number: spec_fn(Text, usize, usize) -> V,
    t: Toks,
    i: nat,
    name: Text,
    k: nat,
)
    requires
        is_name(t, i, name),
        is_tok(t, i + 1, Tok::Lpar),
    ensures
        needs(segment_option(arg, number, t, at(i)), arg(at(i + 2)), t, k, Tok::Rpar),
{
    lemma_lacks(t, k, Tok::Rpar);
}

/// What is neither a name nor a number is no option. The error is that at the token behind.
pub proof fn what_is_no_option<V>(
    arg: spec_fn(Cursor) -> Step<V>,
    number: spec_fn(Text, usize, usize) -> V,
    t: Toks,
    i: nat,
)
    requires
        i < t.len(),
        !(t[i as int] matches Some((_, Tok::Name { .. } | Tok::Int { .. }, _))),
    ensures
        segment_option(arg, number, t, at(i)).res == Err::<Option<SegmentOptionView<V>>, _>(
            unexpected_at(
                t,
                i + 1,
                seq![
                    "A valid bitstring segment type"@,
                    "See: https://gleam.run/book/tour/bit-strings.html"@,
                ],
            ),
        ),
{
}

} // verus!
