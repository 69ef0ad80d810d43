//! Laws of operators.

use crate::ast::BinOp;
use crate::error::{ErrorView, ParseErrorType};
use crate::grammar::basics::{error_at, found, one, skip_one, span};
use crate::grammar::exprs::{expr_chain, expr_unit, expression};
use crate::grammar::guards::{guard, guard_chain, guard_unit};
use crate::laws::places::exprs::expr_unit_is_found;
use crate::laws::places::guards::guard_unit_is_found;
use crate::laws::rules::at;
use crate::model::{ExprView, GuardView};
use crate::operator::{
    binop_of, binop_precedence, expr_joiner, expr_precedence, guard_joiner, guard_precedence,
};
use crate::precedence::{
    is_last_loosest, last_loosest, lemma_last_loosest, lemma_root, lemma_single, op_tree, settled,
    tightening, top_joined, Op,
};
use crate::stream::{ahead, next, peek, token_at, Cursor, Toks};
use crate::token::{Spanned, Tok};
use vstd::prelude::*;

verus! {

/// Operands joined one after another from the left.
pub open spec fn grouped_left<V>(
    join: spec_fn(Spanned, V, V) -> V,
    vals: Seq<V>,
    ops: Seq<Op>,
) -> V
    decreases ops.len(),
{
    if ops.len() == 0 {
        vals[0]
    } else {
        join(
            ops.last().0,
            grouped_left(join, vals.drop_last(), ops.drop_last()),
            vals.last(),
        )
    }
}

/// Operators of the same precedence are left associative.
pub proof fn operators_are_left_associative<V>(
    join: spec_fn(Spanned, V, V) -> V,
    vals: Seq<V>,
    ops: Seq<Op>,
)
    requires
        vals.len() == ops.len() + 1,
        forall|i: int, j: int| 0 <= i < ops.len() && 0 <= j < ops.len() ==> (#[trigger] ops[i]).1
            == (#[trigger] ops[j]).1,
    ensures
        op_tree(join, vals, ops) == grouped_left(join, vals, ops),
    decreases ops.len(),
{
    if ops.len() == 0 {
        assert(ops =~= Seq::empty());
        lemma_single(join, vals);
    } else {
        let k = ops.len() - 1;
        assert(is_last_loosest(ops, k));
        lemma_root(join, vals, ops, k);
        assert(ops.take(k) =~= ops.drop_last());
        assert(vals.take(k + 1) =~= vals.drop_last());
        assert(ops.skip(k + 1) =~= Seq::empty());
        lemma_single(join, vals.skip(k + 1));
        operators_are_left_associative(join, vals.drop_last(), ops.drop_last());
    }
}

/// The root of a tree is the last of the operators of the lowest precedence. What stands before it
/// is the tree on its left, and what stands behind it the tree on its right.
pub proof fn the_loosest_operator_is_the_root<V>(
    join: spec_fn(Spanned, V, V) -> V,
    vals: Seq<V>,
    ops: Seq<Op>,
    k: int,
)
    requires
        vals.len() == ops.len() + 1,
        0 <= k < ops.len(),
        forall|j: int| 0 <= j < k ==> (#[trigger] ops[j]).1 >= ops[k].1,
        forall|j: int| k < j < ops.len() ==> (#[trigger] ops[j]).1 > ops[k].1,
    ensures
        op_tree(join, vals, ops) == join(
            ops[k].0,
            op_tree(join, vals.take(k + 1), ops.take(k)),
            op_tree(join, vals.skip(k + 1), ops.skip(k + 1)),
        ),
{
    assert(is_last_loosest(ops, k));
    lemma_root(join, vals, ops, k);
}

/// Without operators the tree is the only operand.
pub proof fn a_single_operand_is_its_tree<V>(join: spec_fn(Spanned, V, V) -> V, val: V)
    ensures
        op_tree(join, seq![val], Seq::empty()) == val,
{
    lemma_single(join, seq![val]);
}

/// Of two operators the one of the higher precedence takes the operand between them, and of two of
/// the same precedence the left one.
pub proof fn higher_precedence_binds_tighter<V>(
    join: spec_fn(Spanned, V, V) -> V,
    a: V,
    op1: Op,
    b: V,
    op2: Op,
    c: V,
)
    ensures
        op_tree(join, seq![a, b, c], seq![op1, op2]) == if op1.1 < op2.1 {
            join(op1.0, a, join(op2.0, b, c))
        } else {
            join(op2.0, join(op1.0, a, b), c)
        },
{
    let vals = seq![a, b, c];
    let ops = seq![op1, op2];
    let none = Seq::<Op>::empty();
    if op1.1 < op2.1 {
        assert(is_last_loosest(ops, 0));
        lemma_root(join, vals, ops, 0);
        assert(ops.take(0) =~= none);
        lemma_single(join, vals.take(1));
        assert(vals.skip(1) =~= seq![b, c]);
        assert(ops.skip(1) =~= seq![op2]);
        two_operands(join, b, op2, c);
    } else {
        assert(is_last_loosest(ops, 1));
        lemma_root(join, vals, ops, 1);
        assert(ops.skip(2) =~= none);
        lemma_single(join, vals.skip(2));
        assert(vals.take(2) =~= seq![a, b]);
        assert(ops.take(1) =~= seq![op1]);
        two_operands(join, a, op1, b);
    }
}

/// Whether an operator has a lower precedence than `p`.
pub open spec fn looser_than(p: u8) -> spec_fn(Op) -> bool {
    |op: Op| op.1 < p
}

/// The operands with the topmost two of them joined by the last of some operators, and so on down
/// to the first.
pub open spec fn joined_from_the_top<V>(
    join: spec_fn(Spanned, V, V) -> V,
    vals: Seq<V>,
    ops: Seq<Op>,
) -> Seq<V>
    decreases ops.len(),
{
    if ops.len() == 0 {
        vals
    } else {
        joined_from_the_top(join, top_joined(join, vals, ops.last().0), ops.drop_last())
    }
}

/// An operator that comes to a stack on which precedences rise leaves those of a lower precedence
/// there, in their order. The others are joined with their operands, the topmost first, and the
/// operands change in no other way. With the operator on top precedences still rise.
pub proof fn an_operator_leaves_the_looser_ones<V>(
    join: spec_fn(Spanned, V, V) -> V,
    vals: Seq<V>,
    ops: Seq<Op>,
    op: Op,
)
    requires
        tightening(ops),
    ensures
        ({
            let (left_vals, left_ops) = settled(join, vals, ops, Some(op.1));
            &&& left_ops == ops.filter(looser_than(op.1))
            &&& left_ops.is_prefix_of(ops)
            &&& left_vals == joined_from_the_top(join, vals, ops.skip(left_ops.len() as int))
            &&& tightening(left_ops.push(op))
        }),
    decreases ops.len(),
{
    let (left_vals, left_ops) = settled(join, vals, ops, Some(op.1));
    let looser = looser_than(op.1);
    reveal(Seq::filter);
    if ops.len() > 0 && ops.last().1 >= op.1 {
        let below = ops.drop_last();
        let joined = top_joined(join, vals, ops.last().0);
        an_operator_leaves_the_looser_ones(join, joined, below, op);
        assert(!looser(ops.last()));
        assert(left_ops.len() <= below.len());
        assert(left_ops =~= ops.take(left_ops.len() as int)) by {
            assert(left_ops =~= below.take(left_ops.len() as int));
        }
        assert(ops.skip(left_ops.len() as int).drop_last() =~= below.skip(left_ops.len() as int));
        assert(ops.skip(left_ops.len() as int).last() == ops.last());
    } else {
        assert forall|i: int| 0 <= i < ops.len() implies looser(#[trigger] ops[i]) by {
            assert(ops[i].1 <= ops.last().1);
        }
        lemma_all_stay(ops, looser);
        assert(ops.skip(ops.len() as int) =~= Seq::empty());
        assert(ops.push(op).drop_last() =~= ops);
    }
}

proof fn lemma_all_stay(ops: Seq<Op>, stays: spec_fn(Op) -> bool)
    requires
        forall|i: int| 0 <= i < ops.len() ==> stays(#[trigger] ops[i]),
    ensures
        ops.filter(stays) == ops,
    decreases ops.len(),
{
    reveal(Seq::filter);
    if ops.len() > 0 {
        lemma_all_stay(ops.drop_last(), stays);
        assert(ops.drop_last().push(ops.last()) =~= ops);
    }
}

/// Two operands with an operator between them are joined by it.
pub proof fn two_operands<V>(join: spec_fn(Spanned, V, V) -> V, a: V, op: Op, b: V)
    ensures
        op_tree(join, seq![a, b], seq![op]) == join(op.0, a, b),
{
    let vals = seq![a, b];
    let ops = seq![op];
    assert(is_last_loosest(ops, 0));
    lemma_root(join, vals, ops, 0);
    assert(ops.take(0) =~= Seq::empty());
    assert(ops.skip(1) =~= Seq::empty());
    lemma_single(join, vals.take(1));
    lemma_single(join, vals.skip(1));
}

/// What holds of all operands, and is kept whenever two are joined, holds of the whole tree.
pub proof fn trees_keep_what_joining_keeps<V>(
    join: spec_fn(Spanned, V, V) -> V,
    vals: Seq<V>,
    ops: Seq<Op>,
    holds: spec_fn(V) -> bool,
)
    requires
        vals.len() == ops.len() + 1,
        forall|i: int| 0 <= i < vals.len() ==> holds(#[trigger] vals[i]),
        forall|op: Spanned, l: V, r: V|
            holds(l) && holds(r) ==> holds(#[trigger] join(op, l, r)),
    ensures
        holds(op_tree(join, vals, ops)),
    decreases ops.len(),
{
    if ops.len() == 0 {
        assert(ops =~= Seq::empty());
        lemma_single(join, vals);
    } else {
        lemma_last_loosest(ops);
        let k = last_loosest(ops);
        lemma_root(join, vals, ops, k);
        trees_keep_what_joining_keeps(join, vals.take(k + 1), ops.take(k), holds);
        trees_keep_what_joining_keeps(join, vals.skip(k + 1), ops.skip(k + 1), holds);
    }
}

/// Everything that occurs in the operands, in order.
pub open spec fn all_parts<V, P>(parts: spec_fn(V) -> Seq<P>, vals: Seq<V>) -> Seq<P>
    decreases vals.len(),
{
    if vals.len() == 0 {
        Seq::empty()
    } else {
        all_parts(parts, vals.drop_last()) + parts(vals.last())
    }
}

proof fn lemma_all_parts_add<V, P>(parts: spec_fn(V) -> Seq<P>, a: Seq<V>, b: Seq<V>)
    ensures
        all_parts(parts, a + b) == all_parts(parts, a) + all_parts(parts, b),
    decreases b.len(),
{
    if b.len() == 0 {
        assert(a + b =~= a);
        assert(all_parts(parts, a) + all_parts(parts, b) =~= all_parts(parts, a));
    } else {
        lemma_all_parts_add(parts, a, b.drop_last());
        assert((a + b).drop_last() =~= a + b.drop_last());
        assert(all_parts(parts, a + b) =~= all_parts(parts, a) + all_parts(parts, b));
    }
}

/// The tree of a row of operands holds all of them in their order: where joining two operands keeps
/// what occurs in them, in order, so does the whole tree.
pub proof fn operands_stay_in_order<V, P>(
    join: spec_fn(Spanned, V, V) -> V,
    parts: spec_fn(V) -> Seq<P>,
    vals: Seq<V>,
    ops: Seq<Op>,
)
    requires
        vals.len() == ops.len() + 1,
        forall|op: Spanned, l: V, r: V| parts(#[trigger] join(op, l, r)) == parts(l) + parts(r),
    ensures
        parts(op_tree(join, vals, ops)) == all_parts(parts, vals),
    decreases ops.len(),
{
    if ops.len() == 0 {
        assert(ops =~= Seq::empty());
        lemma_single(join, vals);
        assert(all_parts(parts, vals.drop_last()) =~= Seq::empty());
        assert(all_parts(parts, vals) =~= parts(vals[0]));
    } else {
        lemma_last_loosest(ops);
        let k = last_loosest(ops);
        lemma_root(join, vals, ops, k);
        operands_stay_in_order(join, parts, vals.take(k + 1), ops.take(k));
        operands_stay_in_order(join, parts, vals.skip(k + 1), ops.skip(k + 1));
        lemma_all_parts_add(parts, vals.take(k + 1), vals.skip(k + 1));
        assert(vals.take(k + 1) + vals.skip(k + 1) =~= vals);
    }
}

/// Whether expressions alternate with operators at places one after another: the first stands at
/// `c`, behind each stands an operator, and behind that the next.
pub open spec fn expr_row(
    t: Toks,
    c: Cursor,
    places: Seq<Cursor>,
    units: Seq<ExprView>,
    ops: Seq<Op>,
) -> bool {
    &&& places.len() == units.len()
    &&& units.len() > 0 ==> places[0] == c
    &&& forall|i: int|
        0 <= i < units.len() ==> expr_unit(t, places[i]).res == Ok::<_, ErrorView>(
            Some(#[trigger] units[i]),
        )
    &&& forall|i: int|
        0 <= i < ops.len() ==> {
            let behind = expr_unit(t, places[i]).to;
            &&& peek(t, behind) == Some((#[trigger] ops[i]).0)
            &&& expr_precedence(ops[i].0.1) == Some(ops[i].1)
            &&& i + 1 < places.len() ==> places[i + 1] == next(t, behind)
        }
}

/// An expression is the tree of units that alternate with operators, starting and ending with a
/// unit, and it ends where its last unit ends.
pub proof fn expression_is_a_tree_of_units(t: Toks, c: Cursor)
    requires
        c.at <= t.len(),
    ensures
        expression(t, c).res matches Ok(Some(expr)) ==> exists|
            places: Seq<Cursor>,
            units: Seq<ExprView>,
            ops: Seq<Op>,
        | #[trigger]
            expr_row(t, c, places, units, ops) && units.len() == ops.len() + 1
                && expr == op_tree(expr_joiner(), units, ops) && expression(t, c).to == expr_unit(
                t,
                places.last(),
            ).to,
{
    let none = Seq::<ExprView>::empty();
    assert(expr_row(t, c, Seq::empty(), none, Seq::empty()));
    lemma_expr_chain(t, c, Seq::empty(), none, Seq::empty(), c);
}

proof fn lemma_expr_chain(
    t: Toks,
    start: Cursor,
    places: Seq<Cursor>,
    units: Seq<ExprView>,
    ops: Seq<Op>,
    c: Cursor,
)
    requires
        c.at <= t.len(),
        units.len() == ops.len(),
        expr_row(t, start, places, units, ops),
        c == if units.len() == 0 {
            start
        } else {
            next(t, expr_unit(t, places.last()).to)
        },
    ensures
        ({
            let step = expr_chain(t, c, units, ops);
            step.res matches Ok(Some(expr)) ==> exists|
                all_places: Seq<Cursor>,
                all_units: Seq<ExprView>,
                all_ops: Seq<Op>,
            | #[trigger]
                expr_row(t, start, all_places, all_units, all_ops) && all_units.len()
                    == all_ops.len() + 1 && expr == op_tree(expr_joiner(), all_units, all_ops)
                    && step.to == expr_unit(t, all_places.last()).to
        }),
    decreases ahead(t, c),
{
    expr_unit_is_found(t, c);
    let unit = expr_unit(t, c);
    if let Ok(Some(value)) = unit.res {
        let more_places = places.push(c);
        let more_units = units.push(value);
        assert(expr_row(t, start, more_places, more_units, ops)) by {
            assert forall|i: int| 0 <= i < more_units.len() implies expr_unit(
                t,
                more_places[i],
            ).res == Ok::<_, ErrorView>(Some(#[trigger] more_units[i])) by {
                if i < units.len() {
                    assert(more_units[i] == units[i]);
                }
            }
        }
        if let Some((start_at, tok, end)) = peek(t, unit.to) {
            if let Some(p) = expr_precedence(tok) {
                let op = ((start_at, tok, end), p);
                let more_ops = ops.push(op);
                assert(expr_row(t, start, more_places, more_units, more_ops)) by {
                    assert forall|i: int| 0 <= i < more_ops.len() implies {
                        let behind = expr_unit(t, more_places[i]).to;
                        &&& peek(t, behind) == Some((#[trigger] more_ops[i]).0)
                        &&& expr_precedence(more_ops[i].0.1) == Some(more_ops[i].1)
                        &&& i + 1 < more_places.len() ==> more_places[i + 1] == next(t, behind)
                    } by {
                        if i < ops.len() {
                            assert(more_ops[i] == ops[i]);
                        }
                    }
                }
                lemma_expr_chain(t, start, more_places, more_units, more_ops, next(t, unit.to));
            }
        }
    }
}

/// Whether guards alternate with operators at places one after another: the first stands at `c`,
/// behind each stands an operator, and behind that the next.
pub open spec fn guard_row(
    t: Toks,
    c: Cursor,
    places: Seq<Cursor>,
    units: Seq<GuardView>,
    ops: Seq<Op>,
) -> bool {
    &&& places.len() == units.len()
    &&& units.len() > 0 ==> places[0] == c
    &&& forall|i: int|
        0 <= i < units.len() ==> guard_unit(t, places[i]).res == Ok::<_, ErrorView>(
            Some(#[trigger] units[i]),
        )
    &&& forall|i: int|
        0 <= i < ops.len() ==> {
            let behind = guard_unit(t, places[i]).to;
            &&& peek(t, behind) == Some((#[trigger] ops[i]).0)
            &&& guard_precedence(ops[i].0.1) == Some(ops[i].1)
            &&& i + 1 < places.len() ==> places[i + 1] == next(t, behind)
        }
}

/// A guard is the tree of units that alternate with operators, starting and ending with a unit, and
/// it ends where its last unit ends.
pub proof fn guard_is_a_tree_of_units(t: Toks, c: Cursor, nested: bool)
    requires
        c.at <= t.len(),
    ensures
        guard(t, c, nested).res matches Ok(Some(whole)) ==> exists|
            places: Seq<Cursor>,
            units: Seq<GuardView>,
            ops: Seq<Op>,
        | #[trigger]
            guard_row(t, skip_one(t, c, Tok::If), places, units, ops) && units.len() == ops.len() + 1
                && whole == op_tree(guard_joiner(), units, ops) && guard(t, c, nested).to == guard_unit(
                t,
                places.last(),
            ).to,
{
    let none = Seq::<GuardView>::empty();
    let first = skip_one(t, c, Tok::If);
    assert(guard_row(t, first, Seq::empty(), none, Seq::empty()));
    lemma_guard_chain(t, first, Seq::empty(), none, Seq::empty(), first);
}

proof fn lemma_guard_chain(
    t: Toks,
    start: Cursor,
    places: Seq<Cursor>,
    units: Seq<GuardView>,
    ops: Seq<Op>,
    c: Cursor,
)
    requires
        c.at <= t.len(),
        units.len() == ops.len(),
        guard_row(t, start, places, units, ops),
        c == if units.len() == 0 {
            start
        } else {
            next(t, guard_unit(t, places.last()).to)
        },
    ensures
        ({
            let step = guard_chain(t, c, units, ops);
            step.res matches Ok(Some(whole)) ==> exists|
                all_places: Seq<Cursor>,
                all_units: Seq<GuardView>,
                all_ops: Seq<Op>,
            | #[trigger]
                guard_row(t, start, all_places, all_units, all_ops) && all_units.len()
                    == all_ops.len() + 1 && whole == op_tree(guard_joiner(), all_units, all_ops)
                    && step.to == guard_unit(t, all_places.last()).to
        }),
    decreases ahead(t, c),
{
    guard_unit_is_found(t, c);
    let unit = guard_unit(t, c);
    if let Ok(Some(value)) = unit.res {
        let more_places = places.push(c);
        let more_units = units.push(value);
        assert(guard_row(t, start, more_places, more_units, ops)) by {
            assert forall|i: int| 0 <= i < more_units.len() implies guard_unit(
                t,
                more_places[i],
            ).res == Ok::<_, ErrorView>(Some(#[trigger] more_units[i])) by {
                if i < units.len() {
                    assert(more_units[i] == units[i]);
                }
            }
        }
        if let Some((start_at, tok, end)) = peek(t, unit.to) {
            if let Some(p) = guard_precedence(tok) {
                let op = ((start_at, tok, end), p);
                let more_ops = ops.push(op);
                assert(guard_row(t, start, more_places, more_units, more_ops)) by {
                    assert forall|i: int| 0 <= i < more_ops.len() implies {
                        let behind = guard_unit(t, more_places[i]).to;
                        &&& peek(t, behind) == Some((#[trigger] more_ops[i]).0)
                        &&& guard_precedence(more_ops[i].0.1) == Some(more_ops[i].1)
                        &&& i + 1 < more_places.len() ==> more_places[i + 1] == next(t, behind)
                    } by {
                        if i < ops.len() {
                            assert(more_ops[i] == ops[i]);
                        }
                    }
                }
                lemma_guard_chain(t, start, more_places, more_units, more_ops, next(t, unit.to));
            }
        }
    }
}

/// The operators that multiply or divide.
pub open spec fn is_product(tok: Tok) -> bool {
    tok == Tok::Star || tok == Tok::StarDot || tok == Tok::Slash || tok == Tok::SlashDot || tok
        == Tok::Percent
}

/// The operators that add or subtract.
pub open spec fn is_sum(tok: Tok) -> bool {
    tok == Tok::Plus || tok == Tok::PlusDot || tok == Tok::Minus || tok == Tok::MinusDot
}

/// The operators that tell the smaller of two numbers.
pub open spec fn is_order(tok: Tok) -> bool {
    tok == Tok::Less || tok == Tok::LessEqual || tok == Tok::Greater || tok == Tok::GreaterEqual
        || tok == Tok::LessDot || tok == Tok::LessEqualDot || tok == Tok::GreaterDot || tok
        == Tok::GreaterEqualDot
}

/// The operators that tell whether two values are the same.
pub open spec fn is_equality(tok: Tok) -> bool {
    tok == Tok::EqualEqual || tok == Tok::NotEqual
}

/// Whether a token is an operator between expressions.
pub open spec fn is_operator(tok: Tok) -> bool {
    is_product(tok) || is_sum(tok) || tok == Tok::Pipe || is_order(tok) || is_equality(tok) || tok
        == Tok::AmperAmper || tok == Tok::VbarVbar
}

/// Whether a token is an operator between guards.
pub open spec fn is_guard_operator(tok: Tok) -> bool {
    is_order(tok) || is_equality(tok) || tok == Tok::AmperAmper || tok == Tok::VbarVbar
}

/// Whether of two operators the first binds tighter: products bind tighter than sums, sums tighter
/// than the pipe, the pipe tighter than orders, orders tighter than equalities, equalities tighter
/// than `&&`, and that tighter than `||`.
pub open spec fn binds_tighter(a: Tok, b: Tok) -> bool {
    ||| is_product(a) && is_operator(b) && !is_product(b)
    ||| is_sum(a) && (b == Tok::Pipe || is_guard_operator(b))
    ||| a == Tok::Pipe && is_guard_operator(b)
    ||| is_order(a) && (is_equality(b) || b == Tok::AmperAmper || b == Tok::VbarVbar)
    ||| is_equality(a) && (b == Tok::AmperAmper || b == Tok::VbarVbar)
    ||| a == Tok::AmperAmper && b == Tok::VbarVbar
}

/// The tokens that have a precedence between expressions are the operators, and a higher precedence
/// means that an operator binds tighter. Operators of which neither binds tighter have the same.
pub proof fn precedences_follow_the_operators(a: Tok, b: Tok)
    ensures
        expr_precedence(a) is Some <==> is_operator(a),
        is_operator(a) && is_operator(b) ==> {
            &&& expr_precedence(a)->0 > expr_precedence(b)->0 <==> binds_tighter(a, b)
            &&& expr_precedence(a)->0 == expr_precedence(b)->0 <==> !binds_tighter(a, b)
                && !binds_tighter(b, a)
        },
{
}

/// The tokens that have a precedence between guards are their operators, and a higher precedence
/// means that an operator binds tighter. Operators of which neither binds tighter have the same.
pub proof fn precedences_follow_the_operators_of_guards(a: Tok, b: Tok)
    ensures
        guard_precedence(a) is Some <==> is_guard_operator(a),
        is_guard_operator(a) && is_guard_operator(b) ==> {
            &&& guard_precedence(a)->0 > guard_precedence(b)->0 <==> binds_tighter(a, b)
            &&& guard_precedence(a)->0 == guard_precedence(b)->0 <==> !binds_tighter(a, b)
                && !binds_tighter(b, a)
        },
{
}

/// Which binary operator a token writes.
pub open spec fn writes(tok: Tok, op: BinOp) -> bool {
    ||| tok == Tok::VbarVbar && op == BinOp::Or
    ||| tok == Tok::AmperAmper && op == BinOp::And
    ||| tok == Tok::EqualEqual && op == BinOp::Eq
    ||| tok == Tok::NotEqual && op == BinOp::NotEq
    ||| tok == Tok::Less && op == BinOp::LtInt
    ||| tok == Tok::LessEqual && op == BinOp::LtEqInt
    ||| tok == Tok::Greater && op == BinOp::GtInt
    ||| tok == Tok::GreaterEqual && op == BinOp::GtEqInt
    ||| tok == Tok::LessDot && op == BinOp::LtFloat
    ||| tok == Tok::LessEqualDot && op == BinOp::LtEqFloat
    ||| tok == Tok::GreaterDot && op == BinOp::GtFloat
    ||| tok == Tok::GreaterEqualDot && op == BinOp::GtEqFloat
    ||| tok == Tok::Plus && op == BinOp::AddInt
    ||| tok == Tok::Minus && op == BinOp::SubInt
    ||| tok == Tok::PlusDot && op == BinOp::AddFloat
    ||| tok == Tok::MinusDot && op == BinOp::SubFloat
    ||| tok == Tok::Percent && op == BinOp::ModuloInt
    ||| tok == Tok::Star && op == BinOp::MultInt
    ||| tok == Tok::StarDot && op == BinOp::MultFloat
    ||| tok == Tok::Slash && op == BinOp::DivInt
    ||| tok == Tok::SlashDot && op == BinOp::DivFloat
}

/// Each operator but the pipe is the binary operator that its token writes, and has its precedence.
pub proof fn operators_are_named_by_their_tokens(tok: Tok, op: BinOp)
    ensures
        binop_of(tok) == Some(op) <==> writes(tok, op),
        writes(tok, op) ==> expr_precedence(tok) == Some(binop_precedence(op)),
        binop_of(tok) is Some <==> is_operator(tok) && tok != Tok::Pipe,
{
}

/// Two expressions with an operator between them make a binary operation, from the start of the
/// left one to the end of the right one. With a pipe between them they make a pipe, from the start
/// of the operator on.
pub proof fn what_an_operator_makes(
    op: Spanned,
    name: BinOp,
    left: ExprView,
    right: ExprView,
)
    ensures
        writes(op.1, name) ==> expr_joiner()(op, left, right) == (ExprView::BinOp {
            location: span(left.location().start, right.location().end),
            name,
            left: Box::new(left),
            right: Box::new(right),
        }),
        op.1 == Tok::Pipe ==> expr_joiner()(op, left, right) == (ExprView::Pipe {
            location: span(op.0, right.location().end),
            left: Box::new(left),
            right: Box::new(right),
        }),
{
}

/// Two guards with an operator between them make the guard that the operator is named after, from
/// the start of the left one to the end of the right one.
pub proof fn what_an_operator_makes_of_guards(op: Spanned, l: GuardView, r: GuardView)
    ensures
        ({
            let location = span(l.location().start, r.location().end);
            let left = Box::new(l);
            let right = Box::new(r);
            let whole = guard_joiner()(op, l, r);
            &&& op.1 == Tok::VbarVbar ==> whole == GuardView::Or { location, left, right }
            &&& op.1 == Tok::AmperAmper ==> whole == GuardView::And { location, left, right }
            &&& op.1 == Tok::EqualEqual ==> whole == GuardView::Equals { location, left, right }
            &&& op.1 == Tok::NotEqual ==> whole == GuardView::NotEquals { location, left, right }
            &&& op.1 == Tok::Less ==> whole == GuardView::LtInt { location, left, right }
            &&& op.1 == Tok::LessEqual ==> whole == GuardView::LtEqInt { location, left, right }
            &&& op.1 == Tok::Greater ==> whole == GuardView::GtInt { location, left, right }
            &&& op.1 == Tok::GreaterEqual ==> whole == GuardView::GtEqInt { location, left, right }
            &&& op.1 == Tok::LessDot ==> whole == GuardView::LtFloat { location, left, right }
            &&& op.1 == Tok::LessEqualDot ==> whole == GuardView::LtEqFloat {
                location,
                left,
                right,
            }
            &&& op.1 == Tok::GreaterDot ==> whole == GuardView::GtFloat { location, left, right }
            &&& op.1 == Tok::GreaterEqualDot ==> whole == GuardView::GtEqFloat {
                location,
                left,
                right,
            }
        }),
{
}

/// Whether the token at a place is an operator between expressions.
pub open spec fn operator_at(t: Toks, c: Cursor) -> bool {
    peek(t, c) matches Some((_, tok, _)) && is_operator(tok)
}

/// Whether the token at a place is an operator between guards.
pub open spec fn guard_operator_at(t: Toks, c: Cursor) -> bool {
    peek(t, c) matches Some((_, tok, _)) && is_guard_operator(tok)
}

/// A row of units with operators between them, behind which no operator follows, is the expression
/// that the row stands for.
pub proof fn a_row_of_units_is_an_expression(
    t: Toks,
    c: Cursor,
    places: Seq<Cursor>,
    units: Seq<ExprView>,
    ops: Seq<Op>,
)
    requires
        c.at <= t.len(),
        expr_row(t, c, places, units, ops),
        units.len() == ops.len() + 1,
        !operator_at(t, expr_unit(t, places.last()).to),
    ensures
        expression(t, c) == found(
            Some(op_tree(expr_joiner(), units, ops)),
            expr_unit(t, places.last()).to,
        ),
{
    assert(units.take(0) =~= Seq::empty());
    assert(ops.take(0) =~= Seq::empty());
    lemma_row(t, c, places, units, ops, 0);
}

proof fn lemma_row(
    t: Toks,
    c: Cursor,
    places: Seq<Cursor>,
    units: Seq<ExprView>,
    ops: Seq<Op>,
    k: int,
)
    requires
        expr_row(t, c, places, units, ops),
        units.len() == ops.len() + 1,
        !operator_at(t, expr_unit(t, places.last()).to),
        0 <= k < units.len(),
        places[k].at <= t.len(),
    ensures
        expr_chain(t, places[k], units.take(k), ops.take(k)) == found(
            Some(op_tree(expr_joiner(), units, ops)),
            expr_unit(t, places.last()).to,
        ),
    decreases units.len() - k,
{
    let unit = expr_unit(t, places[k]);
    expr_unit_is_found(t, places[k]);
    assert(unit.res == Ok::<_, ErrorView>(Some(units[k])));
    assert(units.take(k).push(units[k]) =~= units.take(k + 1));
    if k < ops.len() {
        let op = ops[k];
        assert(peek(t, unit.to) == Some(ops[k].0));
        assert(ops.take(k).push(op) =~= ops.take(k + 1));
        assert((op.0, op.1) == op);
        lemma_row(t, c, places, units, ops, k + 1);
    } else {
        assert(units.take(k + 1) =~= units);
        assert(ops.take(k) =~= ops);
        if let Some((_, tok, _)) = peek(t, unit.to) {
            precedences_follow_the_operators(tok, tok);
        }
    }
}

proof fn lemma_row_of_three(
    t: Toks,
    places: Seq<Cursor>,
    units: Seq<ExprView>,
    ops: Seq<Op>,
    j: nat,
    k: nat,
    m: nat,
)
    requires
        places.len() == 3,
        units.len() == 3,
        ops.len() == 2,
        expr_unit(t, places[0]) == found(Some(units[0]), at(j)),
        expr_unit(t, places[1]) == found(Some(units[1]), at(k)),
        expr_unit(t, places[2]) == found(Some(units[2]), at(m)),
        token_at(t, j as int) == Some(ops[0].0),
        token_at(t, k as int) == Some(ops[1].0),
        expr_precedence(ops[0].0.1) == Some(ops[0].1),
        expr_precedence(ops[1].0.1) == Some(ops[1].1),
        places[1] == at(j + 1),
        places[2] == at(k + 1),
    ensures
        expr_row(t, places[0], places, units, ops),
        expr_unit(t, places.last()).to == at(m),
{
    assert forall|n: int| 0 <= n < 3 implies expr_unit(t, places[n]).res == Ok::<_, ErrorView>(
        Some(#[trigger] units[n]),
    ) by {
        assert(n == 0 || n == 1 || n == 2);
    }
    assert forall|n: int| 0 <= n < 2 implies {
        let behind = expr_unit(t, places[n]).to;
        &&& peek(t, behind) == Some((#[trigger] ops[n]).0)
        &&& expr_precedence(ops[n].0.1) == Some(ops[n].1)
        &&& n + 1 < 3 ==> places[n + 1] == next(t, behind)
    } by {
        assert(n == 0 || n == 1);
    }
    assert(places.last() == places[2]);
}

/// Of two operators in a row the right one takes the unit between them if it binds tighter, else
/// the left one.
#[verifier::rlimit(60)]
#[verifier::spinoff_prover]
pub proof fn the_tighter_operator_takes_the_unit_between(
    t: Toks,
    i: nat,
    a: ExprView,
    op1: Spanned,
    j: nat,
    b: ExprView,
    op2: Spanned,
    k: nat,
    c: ExprView,
    m: nat,
)
    requires
        i <= t.len(),
        expr_unit(t, at(i)) == found(Some(a), at(j)),
        token_at(t, j as int) == Some(op1),
        is_operator(op1.1),
        expr_unit(t, at(j + 1)) == found(Some(b), at(k)),
        token_at(t, k as int) == Some(op2),
        is_operator(op2.1),
        expr_unit(t, at(k + 1)) == found(Some(c), at(m)),
        !operator_at(t, at(m)),
    ensures
        expression(t, at(i)) == found(
            Some(
                if binds_tighter(op2.1, op1.1) {
                    expr_joiner()(op1, a, expr_joiner()(op2, b, c))
                } else {
                    expr_joiner()(op2, expr_joiner()(op1, a, b), c)
                },
            ),
            at(m),
        ),
{
    precedences_follow_the_operators(op1.1, op2.1);
    precedences_follow_the_operators(op2.1, op1.1);
    let first = (op1, expr_precedence(op1.1)->0);
    let second = (op2, expr_precedence(op2.1)->0);
    let places = seq![at(i), at(j + 1), at(k + 1)];
    let units = seq![a, b, c];
    let ops = seq![first, second];
    lemma_row_of_three(t, places, units, ops, j, k, m);
    a_row_of_units_is_an_expression(t, at(i), places, units, ops);
    higher_precedence_binds_tighter(expr_joiner(), a, first, b, second, c);
}

/// A row of guards with operators between them, behind which a token follows that is no operator,
/// is the guard that the row stands for, behind `if` or inside braces.
pub proof fn a_row_of_units_is_a_guard(
    t: Toks,
    c: Cursor,
    nested: bool,
    places: Seq<Cursor>,
    units: Seq<GuardView>,
    ops: Seq<Op>,
)
    requires
        c.at <= t.len(),
        nested || one(t, c, Tok::If) is Some,
        guard_row(t, skip_one(t, c, Tok::If), places, units, ops),
        units.len() == ops.len() + 1,
        peek(t, guard_unit(t, places.last()).to) is Some,
        !guard_operator_at(t, guard_unit(t, places.last()).to),
    ensures
        guard(t, c, nested) == found(
            Some(op_tree(guard_joiner(), units, ops)),
            guard_unit(t, places.last()).to,
        ),
{
    assert(units.take(0) =~= Seq::empty());
    assert(ops.take(0) =~= Seq::empty());
    lemma_guard_row(t, skip_one(t, c, Tok::If), places, units, ops, 0);
}

proof fn lemma_guard_row(
    t: Toks,
    c: Cursor,
    places: Seq<Cursor>,
    units: Seq<GuardView>,
    ops: Seq<Op>,
    k: int,
)
    requires
        guard_row(t, c, places, units, ops),
        units.len() == ops.len() + 1,
        peek(t, guard_unit(t, places.last()).to) is Some,
        !guard_operator_at(t, guard_unit(t, places.last()).to),
        0 <= k < units.len(),
        places[k].at <= t.len(),
    ensures
        guard_chain(t, places[k], units.take(k), ops.take(k)) == found(
            Some(op_tree(guard_joiner(), units, ops)),
            guard_unit(t, places.last()).to,
        ),
    decreases units.len() - k,
{
    let unit = guard_unit(t, places[k]);
    guard_unit_is_found(t, places[k]);
    assert(unit.res == Ok::<_, ErrorView>(Some(units[k])));
    assert(units.take(k).push(units[k]) =~= units.take(k + 1));
    if k < ops.len() {
        let op = ops[k];
        assert(peek(t, unit.to) == Some(ops[k].0));
        assert(ops.take(k).push(op) =~= ops.take(k + 1));
        assert((op.0, op.1) == op);
        lemma_guard_row(t, c, places, units, ops, k + 1);
    } else {
        assert(units.take(k + 1) =~= units);
        assert(ops.take(k) =~= ops);
        if let Some((_, tok, _)) = peek(t, unit.to) {
            precedences_follow_the_operators_of_guards(tok, tok);
        }
    }
}

/// An operator without a unit behind it is an error, located at the operator.
pub proof fn an_operator_needs_a_right_side(t: Toks, i: nat, a: ExprView, j: nat, op: Spanned)
    requires
        i <= t.len(),
        expr_unit(t, at(i)) == found(Some(a), at(j)),
        token_at(t, j as int) == Some(op),
        is_operator(op.1),
        expr_unit(t, at(j + 1)) == found(None::<ExprView>, at(j + 1)),
    ensures
        expression(t, at(i)) == error_at::<Option<ExprView>>(
            ParseErrorType::OpNakedRight,
            span(op.0, op.2),
            at(j + 1),
        ),
{
    precedences_follow_the_operators(op.1, op.1);
    let p = expr_precedence(op.1)->0;
    let units = Seq::empty().push(a);
    let ops = Seq::empty().push((op, p));
    expr_unit_is_found(t, at(i));
    assert(expr_chain(t, at(i), Seq::empty(), Seq::empty()) == expr_chain(
        t,
        at(j + 1),
        units,
        ops,
    ));
    assert(ops.last() == (op, p));
}

} // verus!
