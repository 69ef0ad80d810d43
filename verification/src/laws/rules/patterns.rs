//! The rules of patterns.

use crate::ast::Pattern;
use crate::error::ParseErrorType;
use crate::grammar::basics::{error_at, found, nothing, series, span, Step};
use crate::grammar::patterns::{
    bare_pattern, bit_string_pattern, constructor_arg, constructor_arg_from, constructor_args,
    constructor_pattern, list_of, list_pattern, pattern, pattern_from, pattern_number,
    pattern_segment, pattern_segment_arg, pattern_segment_arg_in, pattern_segment_from, patterns,
    starting_at, tuple_pattern,
};
use crate::grammar::segments::segment_option_in;
use crate::laws::places::advances;
use crate::laws::places::patterns::{
    constructor_arg_is_found, pattern_is_found, pattern_segment_is_found,
};
use crate::laws::rules::{
    at, begin, behind_label, end, is_discard, is_float, is_int, is_name, is_string, is_tok,
    labelled, lemma_listed, listed, Row,
};
use crate::laws::rules::segments::{a_segment_with_options, a_segment_without_options};
use crate::laws::rules::types::type_named;
use crate::location::location_in;
use crate::model::{CallArgView, PatternView, SegmentOptionView, SegmentView, Text};
use crate::stream::{Cursor, Toks};
use crate::token::Tok;
use vstd::prelude::*;

verus! {

/// A pattern at a place of a stream.
pub open spec fn pattern_in(t: Toks) -> spec_fn(Cursor) -> Step<Option<PatternView>> {
    |c: Cursor| pattern(t, c)
}

/// An argument of a constructor at a place of a stream.
pub open spec fn pattern_arg_in(t: Toks) -> spec_fn(Cursor) -> Step<
    Option<CallArgView<PatternView>>,
> {
    |c: Cursor| constructor_arg(t, c)
}

/// A segment of a bit string pattern at a place of a stream.
pub open spec fn pattern_segment_in(t: Toks) -> spec_fn(Cursor) -> Step<
    Option<SegmentView<PatternView>>,
> {
    |c: Cursor| pattern_segment(t, c)
}

/// `as` and a name behind a pattern give it that name; without `as` it is the pattern.
pub proof fn a_name_for_a_pattern(t: Toks, i: nat, pat: PatternView, j: nat, name: Text)
    requires
        bare_pattern(t, at(i)) == found(Some(pat), at(j)),
    ensures
        !is_tok(t, j, Tok::As) ==> pattern(t, at(i)) == found(Some(pat), at(j)),
        is_tok(t, j, Tok::As) && is_name(t, j + 1, name) ==> pattern(t, at(i)) == found(
            Some(PatternView::Let { name, pattern: Box::new(pat) }),
            at(j + 2),
        ),
{
}

/// A token that is a pattern by itself: a name, a literal or `[]`.
pub proof fn a_token_is_a_pattern(t: Toks, i: nat, text: Text)
    ensures
        ({
            let location = span(begin(t, i), end(t, i));
            let step = bare_pattern(t, at(i));
            let to = at(i + 1);
            &&& is_name(t, i, text) && !is_tok(t, i + 1, Tok::Dot) ==> step == found(
                Some(PatternView::Var { location, name: text }),
                to,
            )
            &&& is_discard(t, i, text) ==> step == found(
                Some(PatternView::Discard { location, name: text }),
                to,
            )
            &&& is_int(t, i, text) ==> step == found(
                Some(PatternView::Int { location, value: text }),
                to,
            )
            &&& is_float(t, i, text) ==> step == found(
                Some(PatternView::Float { location, value: text }),
                to,
            )
            &&& is_string(t, i, text) ==> step == found(
                Some(PatternView::String { location, value: text }),
                to,
            )
            &&& is_tok(t, i, Tok::ListNil) ==> step == found(
                Some(PatternView::Nil { location }),
                to,
            )
        }),
{
}

/// The name of a constructor, without parentheses behind it, is a pattern without arguments.
pub proof fn a_constructor_pattern_without_arguments(
    t: Toks,
    i: nat,
    module: Option<Text>,
    name: Text,
    j: nat,
)
    requires
        type_named(t, i, module, name, j),
        !is_tok(t, j, Tok::Lpar),
    ensures
        bare_pattern(t, at(i)) == found(
            Some(
                PatternView::Constructor {
                    location: span(begin(t, i), end(t, (j - 1) as nat)),
                    name,
                    args: Seq::empty(),
                    module,
                    with_spread: false,
                },
            ),
            at(j),
        ),
{
    let from = if module is Some {
        at(i + 2)
    } else {
        at(i)
    };
    assert(constructor_args(t, at(j), end(t, (j - 1) as nat)) == found(
        (Seq::<CallArgView<PatternView>>::empty(), false, end(t, (j - 1) as nat)),
        at(j),
    ));
    match module {
        Some(text) => {
            let start = Some((begin(t, i), text));
            let whole = constructor_pattern(t, from, start);
            assert(whole.res is Ok);
        },
        None => {
            let whole = constructor_pattern(t, from, None);
            assert(whole.res is Ok);
        },
    }
}

/// Whether arguments in parentheses end behind the last of them: with a closing parenthesis, before
/// which two dots may stand and a comma behind them. `m` is the closing parenthesis.
pub open spec fn args_close(t: Toks, k: nat, spread: bool, m: nat) -> bool {
    &&& is_tok(t, m, Tok::Rpar)
    &&& if spread {
        is_tok(t, k, Tok::DotDot) && (m == k + 1 || is_tok(t, k + 1, Tok::Comma) && m == k + 2)
    } else {
        m == k
    }
}

/// The name of a constructor with arguments in parentheses behind it is a pattern with these
/// arguments in their order; with two dots behind them it leaves out the others.
pub proof fn a_constructor_pattern_with_arguments(
    t: Toks,
    i: nat,
    module: Option<Text>,
    name: Text,
    j: nat,
    row: Row<CallArgView<PatternView>>,
    k: nat,
    spread: bool,
    m: nat,
)
    requires
        type_named(t, i, module, name, j),
        is_tok(t, j, Tok::Lpar),
        listed(t, pattern_arg_in(t), Tok::Comma, j + 1, k, row),
        args_close(t, k, spread, m),
    ensures
        bare_pattern(t, at(i)) == found(
            Some(
                PatternView::Constructor {
                    location: span(begin(t, i), end(t, m)),
                    name,
                    args: row.things,
                    module,
                    with_spread: spread,
                },
            ),
            at(m + 1),
        ),
{
    lemma_pattern_args(t, j + 1, k, row);
    let upname_end = end(t, (j - 1) as nat);
    let args = constructor_args(t, at(j), upname_end);
    assert(args == found((row.things, spread, end(t, m)), at(m + 1)));
    match module {
        Some(text) => {
            let start = Some((begin(t, i), text));
            let whole = constructor_pattern(t, at(i + 2), start);
            assert(whole.res is Ok);
        },
        None => {
            let whole = constructor_pattern(t, at(i), None);
            assert(whole.res is Ok);
        },
    }
}

proof fn lemma_pattern_args(t: Toks, i: nat, k: nat, row: Row<CallArgView<PatternView>>)
    requires
        i <= t.len(),
        listed(t, pattern_arg_in(t), Tok::Comma, i, k, row),
        is_tok(t, k, Tok::Rpar) || is_tok(t, k, Tok::DotDot),
    ensures
        series(constructor_arg_from(t, at(i)), t, Some(Tok::Comma), Seq::empty(), at(i)) == found(
            row.things,
            at(k),
        ),
        i <= k,
{
    let p = constructor_arg_from(t, at(i));
    let q = pattern_arg_in(t);
    assert forall|d: Cursor| i <= d.at <= t.len() implies #[trigger] p(d) == q(d) && advances(
        t,
        d,
        p(d),
    ) by {
        constructor_arg_is_found(t, d);
    }
    lemma_nothing_at(t, k);
    assert(q(at(k)) == found(None::<CallArgView<PatternView>>, at(k)));
    lemma_listed(t, q, p, Tok::Comma, i, k, row);
}

proof fn lemma_nothing_at(t: Toks, k: nat)
    requires
        is_tok(t, k, Tok::Rpar) || is_tok(t, k, Tok::Rsqb) || is_tok(t, k, Tok::DotDot) || is_tok(
            t,
            k,
            Tok::GtGt,
        ) || is_tok(t, k, Tok::RArrow) || is_tok(t, k, Tok::If) || is_tok(t, k, Tok::Vbar),
    ensures
        pattern(t, at(k)) == found(None::<PatternView>, at(k)),
{
    assert(bare_pattern(t, at(k)) == found(None::<PatternView>, at(k)));
}

/// A pattern is an argument of a constructor, without a label or with the one that stands before it
/// and a colon.
pub proof fn an_argument_of_a_constructor_pattern(
    t: Toks,
    i: nat,
    label: Option<Text>,
    value: PatternView,
    j: nat,
)
    requires
        labelled(t, i, label),
        pattern(t, at(behind_label(i, label))) == found(Some(value), at(j)),
    ensures
        constructor_arg(t, at(i)) == found(
            Some(
                CallArgView {
                    label,
                    location: if label is Some {
                        span(begin(t, i), value.location().end)
                    } else {
                        value.location()
                    },
                    value,
                },
            ),
            at(j),
        ),
{
}

/// Behind a label and a colon a pattern has to follow.
pub proof fn a_label_needs_a_pattern(t: Toks, i: nat, label: Text)
    requires
        is_name(t, i, label),
        is_tok(t, i + 1, Tok::Colon),
        nothing(pattern(t, at(i + 2))),
    ensures
        constructor_arg(t, at(i)).res == error_at::<Option<CallArgView<PatternView>>>(
            ParseErrorType::ExpectedPattern,
            span(begin(t, i + 1), end(t, i + 1)),
            at(i),
        ).res,
{
}

/// `tuple` with patterns in parentheses behind it is a tuple of these patterns.
pub proof fn a_tuple_of_patterns(t: Toks, i: nat, row: Row<PatternView>, k: nat)
    requires
        is_tok(t, i, Tok::Tuple),
        is_tok(t, i + 1, Tok::Lpar),
        listed(t, pattern_in(t), Tok::Comma, i + 2, k, row),
        is_tok(t, k, Tok::Rpar),
    ensures
        bare_pattern(t, at(i)) == found(
            Some(
                PatternView::Tuple { location: span(begin(t, i), end(t, k)), elems: row.things },
            ),
            at(k + 1),
        ),
{
    lemma_patterns(t, i + 2, k, row);
    assert(tuple_pattern(t, at(i + 1), begin(t, i)).res is Ok);
}

pub(crate) proof fn lemma_patterns(t: Toks, i: nat, k: nat, row: Row<PatternView>)
    requires
        i <= t.len(),
        listed(t, pattern_in(t), Tok::Comma, i, k, row),
        is_tok(t, k, Tok::Rpar) || is_tok(t, k, Tok::Rsqb) || is_tok(t, k, Tok::DotDot) || is_tok(
            t,
            k,
            Tok::RArrow,
        ) || is_tok(t, k, Tok::If) || is_tok(t, k, Tok::Vbar),
    ensures
        patterns(t, at(i)) == found(row.things, at(k)),
        i <= k,
{
    let p = pattern_from(t, at(i));
    let q = pattern_in(t);
    assert forall|d: Cursor| i <= d.at <= t.len() implies #[trigger] p(d) == q(d) && advances(
        t,
        d,
        p(d),
    ) by {
        pattern_is_found(t, d);
    }
    lemma_nothing_at(t, k);
    lemma_listed(t, q, p, Tok::Comma, i, k, row);
}

/// Segments between `<<` and `>>` are a bit string of them.
pub proof fn a_bit_string_of_patterns(
    t: Toks,
    i: nat,
    row: Row<SegmentView<PatternView>>,
    k: nat,
)
    requires
        is_tok(t, i, Tok::LtLt),
        listed(t, pattern_segment_in(t), Tok::Comma, i + 1, k, row),
        is_tok(t, k, Tok::GtGt),
    ensures
        bare_pattern(t, at(i)) == found(
            Some(
                PatternView::BitString {
                    location: span(begin(t, i), end(t, k)),
                    segments: row.things,
                },
            ),
            at(k + 1),
        ),
{
    lemma_segments(t, i + 1, k, row);
    assert(bit_string_pattern(t, at(i + 1), begin(t, i)).res is Ok);
}

proof fn lemma_segments(t: Toks, i: nat, k: nat, row: Row<SegmentView<PatternView>>)
    requires
        i <= t.len(),
        listed(t, pattern_segment_in(t), Tok::Comma, i, k, row),
        is_tok(t, k, Tok::GtGt),
    ensures
        series(pattern_segment_from(t, at(i)), t, Some(Tok::Comma), Seq::empty(), at(i)) == found(
            row.things,
            at(k),
        ),
        i <= k,
{
    let p = pattern_segment_from(t, at(i));
    let q = pattern_segment_in(t);
    assert forall|d: Cursor| i <= d.at <= t.len() implies #[trigger] p(d) == q(d) && advances(
        t,
        d,
        p(d),
    ) by {
        pattern_segment_is_found(t, d);
    }
    lemma_nothing_at(t, k);
    assert(q(at(k)) == found(None::<SegmentView<PatternView>>, at(k)));
    lemma_listed(t, q, p, Tok::Comma, i, k, row);
}

/// A pattern is a segment of a bit string pattern, with the options behind a colon if there are
/// any.
pub proof fn a_segment_of_a_pattern(
    t: Toks,
    i: nat,
    value: PatternView,
    j: nat,
    row: Row<SegmentOptionView<PatternView>>,
    k: nat,
)
    requires
        i <= t.len(),
        pattern(t, at(i)) == found(Some(value), at(j)),
        ({
            ||| !is_tok(t, j, Tok::Colon) && row.things.len() == 0 && k == j
            ||| {
                &&& is_tok(t, j, Tok::Colon)
                &&& listed(
                    t,
                    segment_option_in(pattern_segment_arg_in(t), pattern_number(), t),
                    Tok::Minus,
                    j + 1,
                    k,
                    row,
                )
                &&& row.things.len() > 0
                &&& k == row.stops.last()
                &&& !is_tok(t, k, Tok::Minus)
            }
        }),
    ensures
        pattern_segment(t, at(i)) == found(
            Some(
                SegmentView {
                    location: span(
                        value.location().start,
                        if row.things.len() > 0 {
                            row.things.last().location().end
                        } else {
                            value.location().end
                        },
                    ),
                    value: Box::new(value),
                    options: row.things,
                },
            ),
            at(k),
        ),
{
    let first = pattern(t, at(i));
    let arg = pattern_segment_arg_in(t);
    let location = location_in::<Pattern>();
    if row.things.len() == 0 {
        assert(row.things =~= Seq::empty());
        a_segment_without_options(first, arg, pattern_number(), location, t, value, j);
    } else {
        a_segment_with_options(first, arg, pattern_number(), location, t, value, j, row, k);
    }
}

/// The argument of an option of a bit string pattern is a variable that is used, or a number; its
/// size in the short form is a number.
pub proof fn an_argument_of_an_option_of_a_pattern(t: Toks, i: nat, text: Text)
    ensures
        ({
            let location = span(begin(t, i), end(t, i));
            let number = PatternView::Int { location, value: text };
            &&& is_name(t, i, text) ==> pattern_segment_arg(t, at(i)) == found(
                PatternView::VarCall { location, name: text },
                at(i + 1),
            )
            &&& is_int(t, i, text) ==> pattern_segment_arg(t, at(i)) == found(number, at(i + 1))
            &&& pattern_number()(text, begin(t, i), end(t, i)) == number
        }),
{
}

/// Whether a pattern is a list of elements that goes on with a tail: each element but the first is
/// the head of the list that is the tail of the one before, and located where the element is.
pub open spec fn lists(pat: PatternView, elements: Seq<PatternView>, tail: PatternView) -> bool
    decreases elements.len(),
{
    if elements.len() == 0 {
        pat == tail
    } else {
        pat matches PatternView::Cons { location, head, tail: rest } && {
            &&& *head == elements[0]
            &&& location == elements[0].location()
            &&& lists(*rest, elements.drop_first(), tail)
        }
    }
}

/// What a list pattern between its brackets is: a tail if it has no elements, and otherwise a list
/// that starts at its bracket.
pub open spec fn is_list(
    pat: PatternView,
    start: usize,
    elements: Seq<PatternView>,
    tail: PatternView,
) -> bool {
    if elements.len() == 0 {
        pat == tail
    } else {
        pat matches PatternView::Cons { location, head, tail: rest } && {
            &&& *head == elements[0]
            &&& location == span(start, elements[0].location().end)
            &&& lists(*rest, elements.drop_first(), tail)
        }
    }
}

proof fn lemma_list_of(elements: Seq<PatternView>, tail: PatternView)
    ensures
        lists(list_of(elements, tail), elements, tail),
    decreases elements.len(),
{
    if elements.len() > 0 {
        lemma_list_of(elements.drop_first(), tail);
    }
}

/// Whether a list pattern ends behind its last element: with a bracket, before which two dots may
/// stand with a tail. `m` is the bracket. Without dots the list ends, and without a tail the rest
/// is discarded.
pub open spec fn list_closes(t: Toks, k: nat, tail: PatternView, m: nat) -> bool {
    let closing = span((end(t, m) - 1) as usize, end(t, m));
    &&& is_tok(t, m, Tok::Rsqb)
    &&& {
        ||| m == k && tail == (PatternView::Nil { location: closing })
        ||| is_tok(t, k, Tok::DotDot) && (m == k + 1 || is_tok(t, k + 1, Tok::Comma) && m == k + 2)
            && tail == (PatternView::Discard { location: closing, name: "_"@ })
        ||| {
            &&& is_tok(t, k, Tok::DotDot)
            &&& tail is Var || tail is Discard
            &&& {
                ||| m > 0 && pattern(t, at(k + 1)) == found(Some(tail), at(m))
                ||| m > 0 && pattern(t, at(k + 1)) == found(Some(tail), at((m - 1) as nat))
                    && is_tok(t, (m - 1) as nat, Tok::Comma)
            }
        }
    }
}

/// Patterns in brackets are a list of them that starts at its bracket, with the tail that stands
/// behind two dots.
pub proof fn a_list_of_patterns(
    t: Toks,
    i: nat,
    row: Row<PatternView>,
    k: nat,
    tail: PatternView,
    m: nat,
)
    requires
        is_tok(t, i, Tok::Lsqb),
        listed(t, pattern_in(t), Tok::Comma, i + 1, k, row),
        list_closes(t, k, tail, m),
    ensures
        bare_pattern(t, at(i)).to == at(m + 1),
        bare_pattern(t, at(i)).res matches Ok(Some(pat)) && is_list(
            pat,
            begin(t, i),
            row.things,
            tail,
        ),
{
    lemma_patterns(t, i + 1, k, row);
    if is_tok(t, k + 1, Tok::Rsqb) {
        lemma_nothing_at(t, k + 1);
    }
    if is_tok(t, k + 1, Tok::Comma) {
        assert(bare_pattern(t, at(k + 1)) == found(None::<PatternView>, at(k + 1)));
    }
    pattern_is_found(t, at(k + 1));
    lemma_list_of(row.things, tail);
    let whole = starting_at(list_of(row.things, tail), begin(t, i));
    assert(list_pattern(t, at(i + 1), begin(t, i)) == found(whole, at(m + 1)));
    if row.things.len() == 0 {
        assert(whole == tail);
    }
}

/// The tail of a list pattern is a variable or discarded; another pattern there is an error,
/// located where the pattern is.
pub proof fn a_tail_is_a_name(
    t: Toks,
    i: nat,
    row: Row<PatternView>,
    k: nat,
    tail: PatternView,
    m: nat,
)
    requires
        is_tok(t, i, Tok::Lsqb),
        listed(t, pattern_in(t), Tok::Comma, i + 1, k, row),
        is_tok(t, k, Tok::DotDot),
        pattern(t, at(k + 1)) == found(Some(tail), at(m)),
        is_tok(t, m, Tok::Rsqb),
        !(tail is Var || tail is Discard),
    ensures
        bare_pattern(t, at(i)) == error_at::<Option<PatternView>>(
            ParseErrorType::InvalidTailPattern,
            tail.location(),
            at(m + 1),
        ),
{
    lemma_patterns(t, i + 1, k, row);
    assert(list_pattern(t, at(i + 1), begin(t, i)).res is Err);
}

/// No other token starts a pattern.
pub proof fn nothing_else_is_a_pattern(t: Toks, c: Cursor)
    requires
        c.at <= t.len(),
    ensures
        nothing(pattern(t, c)) <==> {
            ||| c.lost
            ||| c.at >= t.len()
            ||| !(t[c.at as int] matches Some(
                (
                    _,
                    Tok::Name { .. }
                    | Tok::UpName { .. }
                    | Tok::DiscardName { .. }
                    | Tok::String { .. }
                    | Tok::Int { .. }
                    | Tok::Float { .. }
                    | Tok::ListNil
                    | Tok::Tuple
                    | Tok::LtLt
                    | Tok::Lsqb,
                    _,
                ),
            ))
        },
        nothing(pattern(t, c)) ==> pattern(t, c).to == c,
{
    pattern_is_found(t, c);
    let bare = bare_pattern(t, c);
    assert(nothing(pattern(t, c)) <==> nothing(bare));
}

} // verus!
