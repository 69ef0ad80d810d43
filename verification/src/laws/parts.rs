//! Laws of what is made of its parts: blocks, named patterns and annotations.

use crate::error::ParseErrorType;
use crate::grammar::basics::{error_at, found, nothing, one, some_of, span};
use crate::grammar::exprs::{block_expr, expr_head, expr_unit, expression_seq, unit_tail};
use crate::grammar::patterns::{bare_pattern, pattern};
use crate::grammar::types::{ty, type_annotation};
use crate::laws::elsewhere::Stretch;
use crate::laws::elsewhere::exprs::sequences_are_the_same_elsewhere;
use crate::laws::elsewhere::patterns::{lemma_bare_pattern, lemma_bare_pattern_before_as};
use crate::laws::elsewhere::types::types_are_the_same_elsewhere;
use crate::laws::places::exprs::expression_seq_is_found;
use crate::laws::places::patterns::bare_pattern_is_found;
use crate::model::{ExprView, PatternView, Text, TypeView};
use crate::stream::{next, token_at, Cursor, Toks};
use crate::token::Tok;
use vstd::prelude::*;

verus! {

/// Whether at a place in one stream the same `len` tokens come next as at one in another.
pub open spec fn alike(t: Toks, c: Cursor, u: Toks, d: Cursor, len: nat) -> bool {
    &&& !c.lost
    &&& !d.lost
    &&& c.at + len <= t.len()
    &&& d.at + len <= u.len()
    &&& forall|i: int|
        0 <= i < len ==> #[trigger] token_at(t, c.at + i) == token_at(u, d.at + i)
}

/// The place some tokens further on.
pub open spec fn further(c: Cursor, count: nat) -> Cursor {
    Cursor { at: c.at + count, lost: false }
}

/// All that comes next at a place of a stream, on its own and in the stream.
spec fn rest_of(t: Toks, c: Cursor) -> Stretch {
    Stretch { here: t.skip(c.at as int), there: t, shift: c.at, len: (t.len() - c.at) as nat }
}

/// The tokens that come next at a place of one stream and at one of another.
spec fn common(t: Toks, c: Cursor, u: Toks, d: Cursor, len: nat) -> Stretch {
    Stretch { here: t.skip(c.at as int), there: u, shift: d.at, len }
}

proof fn lemma_common(t: Toks, c: Cursor, u: Toks, d: Cursor, len: nat)
    requires
        alike(t, c, u, d, len),
    ensures
        rest_of(t, c).fits(),
        rest_of(t, c).ends(),
        rest_of(t, c).across(Cursor { at: 0, lost: false }) == c,
        common(t, c, u, d, len).fits(),
        common(t, c, u, d, len).across(Cursor { at: 0, lost: false }) == d,
{
    let rest = t.skip(c.at as int);
    assert forall|i: int| 0 <= i < rest.len() implies token_at(t, i + c.at) == #[trigger] token_at(
        rest,
        i,
    ) by {}
    assert forall|i: int| 0 <= i < len implies token_at(u, i + d.at) == #[trigger] token_at(
        rest,
        i,
    ) by {
        assert(token_at(t, c.at + i) == token_at(u, d.at + i));
    }
}

/// Braces leave no node of their own: where a sequence is found between an opening brace and a
/// closing one behind which neither a field access nor a call follows, the unit is that sequence.
/// Where none is found the error is that there is no expression, from the one brace to the
/// other.
pub proof fn braces_leave_no_node(t: Toks, c: Cursor)
    requires
        c.at <= t.len(),
    ensures
        one(t, c, Tok::Lbrace) matches Some((start, _)) ==> {
            let inner = expression_seq(t, next(t, c));
            let behind = next(t, inner.to);
            one(t, inner.to, Tok::Rbrace) matches Some((_, end)) ==> {
                &&& inner.res matches Ok(Some((expr, _))) ==> one(t, behind, Tok::Dot) is None
                    && one(t, behind, Tok::Lpar) is None ==> expr_unit(t, c) == found(
                    Some(expr),
                    behind,
                )
                &&& nothing(inner) ==> expr_unit(t, c) == error_at::<Option<ExprView>>(
                    ParseErrorType::NoExpression,
                    span(start, end),
                    behind,
                )
            }
        },
{
    if let Some((start, _)) = one(t, c, Tok::Lbrace) {
        let to = next(t, c);
        let inner = expression_seq(t, to);
        expression_seq_is_found(t, to);
        let block = block_expr(t, to, start);
        assert(expr_head(t, c) == some_of(block));
        if let Some((_, end)) = one(t, inner.to, Tok::Rbrace) {
            let behind = next(t, inner.to);
            if let Ok(Some((expr, _))) = inner.res {
                assert(block == found(expr, behind));
                if one(t, behind, Tok::Dot) is None && one(t, behind, Tok::Lpar) is None {
                    assert(unit_tail(t, behind, expr) == found(expr, behind));
                }
            }
        }
    }
}

/// A sequence that is found before a closing brace in one input is the unit that it makes, in
/// braces, in the same or in another input, if neither a field access nor a call follows. Where
/// nothing is found before the brace, the error is that there is no expression.
pub proof fn a_sequence_in_braces_is_itself(
    t: Toks,
    c: Cursor,
    u: Toks,
    d: Cursor,
    opening: (usize, usize),
    closing: (usize, usize),
)
    requires
        c.at <= t.len(),
        d.at <= u.len(),
        expression_seq(t, c).res is Ok,
        one(t, expression_seq(t, c).to, Tok::Rbrace) == Some(closing),
        one(u, d, Tok::Lbrace) == Some(opening),
        alike(t, c, u, next(u, d), (expression_seq(t, c).to.at - c.at + 1) as nat),
    ensures
        ({
            let inner = expression_seq(t, c);
            let behind = further(next(u, d), (inner.to.at - c.at + 1) as nat);
            &&& inner.res matches Ok(Some((expr, _))) ==> one(u, behind, Tok::Dot) is None && one(
                u,
                behind,
                Tok::Lpar,
            ) is None ==> expr_unit(u, d) == found(Some(expr), behind)
            &&& nothing(inner) ==> expr_unit(u, d) == error_at::<Option<ExprView>>(
                ParseErrorType::NoExpression,
                span(opening.0, closing.1),
                behind,
            )
        }),
{
    let here = Cursor { at: 0, lost: false };
    let inner = expression_seq(t, c);
    let to = next(u, d);
    let len = (inner.to.at - c.at + 1) as nat;
    expression_seq_is_found(t, c);
    lemma_common(t, c, u, to, len);
    sequences_are_the_same_elsewhere(rest_of(t, c), here);
    sequences_are_the_same_elsewhere(common(t, c, u, to, len), here);
    let last = (inner.to.at - c.at) as int;
    assert(token_at(t, c.at + last) == token_at(u, to.at + last));
    braces_leave_no_node(u, d);
}

/// Tokens that by themselves make a pattern, which is not named yet, make that pattern under a name
/// if `as` and the name follow, in whatever input they stand.
pub proof fn a_pattern_may_be_named(
    t: Toks,
    c: Cursor,
    u: Toks,
    d: Cursor,
    pat: PatternView,
    name: Text,
)
    requires
        c.at <= t.len(),
        pattern(t, c) == found(Some(pat), (Cursor { at: t.len(), lost: false })),
        !(pat is Let),
        alike(t, c, u, d, (t.len() - c.at) as nat),
        token_at(u, d.at + t.len() - c.at) matches Some((_, Tok::As, _)),
        token_at(u, d.at + t.len() - c.at + 1) matches Some((_, Tok::Name { name: text }, _))
            && text@ == name,
    ensures
        pattern(u, d) == found(
            Some(PatternView::Let { name, pattern: Box::new(pat) }),
            further(d, (t.len() - c.at + 2) as nat),
        ),
{
    let here = Cursor { at: 0, lost: false };
    let len = (t.len() - c.at) as nat;
    lemma_common(t, c, u, d, len);
    let rest = rest_of(t, c);
    let both = common(t, c, u, d, len);
    bare_pattern_is_found(t, c);
    bare_pattern_is_found(rest.here, here);
    lemma_bare_pattern(rest, here);
    assert(bare_pattern(t, c) == pattern(t, c));
    lemma_bare_pattern_before_as(both, here);
    let bare = bare_pattern(u, d);
    assert(bare == found(Some(pat), further(d, len)));
    assert(one(u, bare.to, Tok::As) is Some);
}

/// Behind the token that announces it, an annotation is the type that is found where the same
/// tokens come next, in the same or in another input; where no type is found there, the error is
/// that one was expected. Without that token there is no annotation and nothing is read.
pub proof fn an_annotation_is_a_type(
    t: Toks,
    c: Cursor,
    u: Toks,
    d: Cursor,
    start_tok: Tok,
    for_const: bool,
)
    requires
        c.at <= t.len(),
        d.at <= u.len(),
        one(u, d, start_tok) is Some ==> t.skip(c.at as int) == u.skip(next(u, d).at as int)
            && !c.lost,
    ensures
        ({
            let typ = ty(t, c, for_const);
            let annotation = type_annotation(u, d, start_tok, for_const);
            match one(u, d, start_tok) {
                None => annotation == found(None::<TypeView>, d),
                Some((start, end)) => {
                    &&& annotation.to.at - next(u, d).at == typ.to.at - c.at
                    &&& annotation.to.lost == typ.to.lost
                    &&& nothing(typ) ==> annotation == error_at::<Option<TypeView>>(
                        ParseErrorType::ExpectedType,
                        span(start, end),
                        annotation.to,
                    )
                    &&& !nothing(typ) ==> annotation.res == typ.res
                },
            }
        }),
{
    if one(u, d, start_tok) is Some {
        let here = Cursor { at: 0, lost: false };
        let to = next(u, d);
        let rest = t.skip(c.at as int);
        let len = rest.len();
        assert(len == t.len() - c.at);
        assert(u.skip(to.at as int).len() == u.len() - to.at);
        assert forall|i: int| 0 <= i < len implies #[trigger] token_at(t, c.at + i) == token_at(
            u,
            to.at + i,
        ) by {
            assert(rest[i] == t[c.at + i]);
            assert(u.skip(to.at as int)[i] == u[to.at + i]);
        }
        lemma_common(t, c, u, to, len);
        types_are_the_same_elsewhere(rest_of(t, c), here, for_const);
        types_are_the_same_elsewhere(common(t, c, u, to, len), here, for_const);
    }
}

} // verus!
