//! Operator precedence: which tree a row of operands and operators stands for, and the stack
//! algorithm that builds that tree from left to right.
//!
//! A higher number means a higher precedence, and all operators are left associative.

use crate::error::ParseError;
use crate::token::Spanned;
use vstd::prelude::*;

verus! {

/// An operator token with its precedence.
pub type Op = (Spanned, u8);

/// Whether the operator at `k` is the last one among those of the lowest precedence.
pub open spec fn is_last_loosest(ops: Seq<Op>, k: int) -> bool {
    &&& 0 <= k < ops.len()
    &&& forall|j: int| 0 <= j < k ==> ops[k].1 <= (#[trigger] ops[j]).1
    &&& forall|j: int| k < j < ops.len() ==> ops[k].1 < (#[trigger] ops[j]).1
}

/// The position of the last one among the operators of the lowest precedence.
pub open spec fn last_loosest(ops: Seq<Op>) -> int
    decreases ops.len(),
{
    if ops.len() <= 1 {
        0
    } else {
        let k = last_loosest(ops.drop_last());
        if ops.last().1 <= ops[k].1 {
            ops.len() - 1
        } else {
            k
        }
    }
}

pub proof fn lemma_last_loosest(ops: Seq<Op>)
    requires
        ops.len() > 0,
    ensures
        is_last_loosest(ops, last_loosest(ops)),
    decreases ops.len(),
{
    if ops.len() > 1 {
        lemma_last_loosest(ops.drop_last());
        let k = last_loosest(ops.drop_last());
        assert forall|j: int| 0 <= j < ops.len() - 1 implies ops[k].1 <= (#[trigger] ops[j]).1 by {
            assert(ops.drop_last()[j] == ops[j]);
        }
        assert forall|j: int| k < j < ops.len() - 1 implies ops[k].1 < (#[trigger] ops[j]).1 by {
            assert(ops.drop_last()[j] == ops[j]);
        }
    }
}

/// There is only one last operator of the lowest precedence.
pub proof fn lemma_last_loosest_unique(ops: Seq<Op>, k: int)
    requires
        is_last_loosest(ops, k),
    ensures
        last_loosest(ops) == k,
{
    lemma_last_loosest(ops);
    let m = last_loosest(ops);
    if m < k {
        assert(ops[k].1 <= ops[m].1);
    } else if k < m {
        assert(ops[m].1 <= ops[k].1);
    }
}

/// The tree that operands and the operators between them stand for. Its root is the last operator
/// of the lowest precedence, with the tree of what stands before it on its left and the tree of
/// what stands behind it on its right.
#[verifier::opaque]
pub open spec fn op_tree<V>(join: spec_fn(Spanned, V, V) -> V, vals: Seq<V>, ops: Seq<Op>) -> V
    decreases ops.len(),
{
    if ops.len() == 0 {
        vals[0]
    } else {
        proof {
            lemma_last_loosest(ops);
        }
        let k = last_loosest(ops);
        join(
            ops[k].0,
            op_tree(join, vals.take(k + 1), ops.take(k)),
            op_tree(join, vals.skip(k + 1), ops.skip(k + 1)),
        )
    }
}

/// A single operand is its own tree.
pub proof fn lemma_single<V>(join: spec_fn(Spanned, V, V) -> V, vals: Seq<V>)
    ensures
        op_tree(join, vals, Seq::empty()) == vals[0],
{
    reveal(op_tree);
}

/// The last operator of the lowest precedence is the root of the tree.
pub proof fn lemma_root<V>(
    join: spec_fn(Spanned, V, V) -> V,
    vals: Seq<V>,
    ops: Seq<Op>,
    k: int,
)
    requires
        is_last_loosest(ops, k),
    ensures
        op_tree(join, vals, ops) == join(
            ops[k].0,
            op_tree(join, vals.take(k + 1), ops.take(k)),
            op_tree(join, vals.skip(k + 1), ops.skip(k + 1)),
        ),
{
    reveal(op_tree);
    lemma_last_loosest_unique(ops, k);
}

/// `vals` with the operands at `k` and `k + 1` joined into one.
pub open spec fn joined_at<V>(
    join: spec_fn(Spanned, V, V) -> V,
    vals: Seq<V>,
    op: Spanned,
    k: int,
) -> Seq<V> {
    vals.take(k).push(join(op, vals[k], vals[k + 1])) + vals.skip(k + 2)
}

/// An operator that binds tighter than the one before it, and at least as tight as the one behind
/// it, can be joined with its two operands first: the tree stays the same.
pub proof fn lemma_joined_at<V>(
    join: spec_fn(Spanned, V, V) -> V,
    vals: Seq<V>,
    ops: Seq<Op>,
    k: int,
)
    requires
        vals.len() == ops.len() + 1,
        0 <= k < ops.len(),
        k > 0 ==> ops[k - 1].1 < ops[k].1,
        k + 1 < ops.len() ==> ops[k + 1].1 <= ops[k].1,
    ensures
        op_tree(join, joined_at(join, vals, ops[k].0, k), ops.remove(k)) == op_tree(
            join,
            vals,
            ops,
        ),
    decreases ops.len(),
{
    let op = ops[k].0;
    let vals2 = joined_at(join, vals, op, k);
    let ops2 = ops.remove(k);
    lemma_last_loosest(ops);
    let m = last_loosest(ops);
    lemma_root(join, vals, ops, m);
    if ops.len() == 1 {
        assert(ops2 =~= Seq::empty());
        assert(ops.take(0) =~= Seq::empty());
        assert(ops.skip(1) =~= Seq::empty());
        lemma_single(join, vals2);
        lemma_single(join, vals.take(1));
        lemma_single(join, vals.skip(1));
    } else if m < k {
        assert(is_last_loosest(ops2, m)) by {
            assert(forall|j: int| 0 <= j < k ==> ops2[j] == ops[j]);
            assert(forall|j: int| k <= j < ops2.len() ==> ops2[j] == ops[j + 1]);
        }
        lemma_root(join, vals2, ops2, m);
        lemma_joined_at(join, vals.skip(m + 1), ops.skip(m + 1), k - m - 1);
        assert(vals2.take(m + 1) =~= vals.take(m + 1));
        assert(ops2.take(m) =~= ops.take(m));
        assert(vals2.skip(m + 1) =~= joined_at(join, vals.skip(m + 1), op, k - m - 1));
        assert(ops2.skip(m + 1) =~= ops.skip(m + 1).remove(k - m - 1));
    } else {
        assert(m != k) by {
            if k > 0 {
                assert(ops[k - 1].1 < ops[k].1);
            } else {
                assert(ops[k + 1].1 <= ops[k].1);
            }
        }
        assert(is_last_loosest(ops2, m - 1)) by {
            assert(forall|j: int| 0 <= j < k ==> ops2[j] == ops[j]);
            assert(forall|j: int| k <= j < ops2.len() ==> ops2[j] == ops[j + 1]);
        }
        lemma_root(join, vals2, ops2, m - 1);
        lemma_joined_at(join, vals.take(m + 1), ops.take(m), k);
        assert(vals2.take(m) =~= joined_at(join, vals.take(m + 1), op, k));
        assert(ops2.take(m - 1) =~= ops.take(m).remove(k));
        assert(vals2.skip(m) =~= vals.skip(m + 1));
        assert(ops2.skip(m) =~= ops.skip(m + 1));
    }
}

/// Whether each operator binds tighter than those before it.
pub open spec fn tightening(ops: Seq<Op>) -> bool {
    forall|i: int, j: int| 0 <= i < j < ops.len() ==> (#[trigger] ops[i]).1 < (#[trigger] ops[j]).1
}

/// The operands with the topmost two joined by an operator.
pub open spec fn top_joined<V>(
    join: spec_fn(Spanned, V, V) -> V,
    vals: Seq<V>,
    op: Spanned,
) -> Seq<V> {
    vals.take(vals.len() - 2).push(join(op, vals[vals.len() - 2], vals[vals.len() - 1]))
}

/// What is left of a stack of operands and one of operators once the topmost operators have been
/// joined with their operands, as long as they bind at least as tight as `bound`; all of them where
/// there is no bound.
pub open spec fn settled<V>(
    join: spec_fn(Spanned, V, V) -> V,
    vals: Seq<V>,
    ops: Seq<Op>,
    bound: Option<u8>,
) -> (Seq<V>, Seq<Op>)
    decreases ops.len(),
{
    if ops.len() > 0 && (bound matches Some(p) ==> ops.last().1 >= p) {
        settled(join, top_joined(join, vals, ops.last().0), ops.drop_last(), bound)
    } else {
        (vals, ops)
    }
}

/// Settling stacks changes no tree: neither that of what is on the stacks alone, nor that of the
/// stacks followed by more operators and operands, if the first of them binds no tighter than the
/// bound.
pub proof fn lemma_settled<V>(
    join: spec_fn(Spanned, V, V) -> V,
    vals: Seq<V>,
    ops: Seq<Op>,
    bound: Option<u8>,
    more_vals: Seq<V>,
    more_ops: Seq<Op>,
)
    requires
        vals.len() == ops.len() + 1,
        tightening(ops),
        more_vals.len() == more_ops.len(),
        bound is None ==> more_ops.len() == 0,
        bound matches Some(p) ==> more_ops.len() > 0 ==> more_ops[0].1 <= p,
    ensures
        ({
            let (vals2, ops2) = settled(join, vals, ops, bound);
            &&& vals2.len() == ops2.len() + 1
            &&& tightening(ops2)
            &&& bound matches Some(p) ==> ops2.len() > 0 ==> ops2.last().1 < p
            &&& bound is None ==> ops2.len() == 0
            &&& op_tree(join, vals2 + more_vals, ops2 + more_ops) == op_tree(
                join,
                vals + more_vals,
                ops + more_ops,
            )
        }),
    decreases ops.len(),
{
    if ops.len() > 0 && (bound matches Some(p) ==> ops.last().1 >= p) {
        let k = ops.len() - 1;
        let vals1 = top_joined(join, vals, ops.last().0);
        lemma_settled(join, vals1, ops.drop_last(), bound, more_vals, more_ops);
        lemma_joined_at(join, vals + more_vals, ops + more_ops, k);
        assert(joined_at(join, vals + more_vals, ops.last().0, k) =~= vals1 + more_vals);
        assert((ops + more_ops).remove(k) =~= ops.drop_last() + more_ops);
    }
}

/// Whether a row of operands and operators that ends in an operator, on the stacks, stands for the
/// same trees as another one, whatever follows both.
pub open spec fn same_trees<V>(
    join: spec_fn(Spanned, V, V) -> V,
    vals: Seq<V>,
    ops: Seq<Op>,
    vals0: Seq<V>,
    ops0: Seq<Op>,
) -> bool {
    forall|more_vals: Seq<V>, more_ops: Seq<Op>|
        more_vals.len() == more_ops.len() + 1 ==> #[trigger] op_tree(
            join,
            vals + more_vals,
            ops + more_ops,
        ) == op_tree(join, vals0 + more_vals, ops0 + more_ops)
}

/// One round of the stack algorithm, that reads an operand and the operator behind it.
pub proof fn lemma_round<V>(
    join: spec_fn(Spanned, V, V) -> V,
    vals: Seq<V>,
    ops: Seq<Op>,
    vals0: Seq<V>,
    ops0: Seq<Op>,
    val: V,
    op: Op,
)
    requires
        vals.len() == ops.len(),
        tightening(ops),
        same_trees(join, vals, ops, vals0, ops0),
    ensures
        ({
            let (vals2, ops2) = settled(join, vals.push(val), ops, Some(op.1));
            &&& vals2.len() == ops2.len() + 1
            &&& tightening(ops2.push(op))
            &&& same_trees(join, vals2, ops2.push(op), vals0.push(val), ops0.push(op))
        }),
{
    let (vals2, ops2) = settled(join, vals.push(val), ops, Some(op.1));
    lemma_settled(join, vals.push(val), ops, Some(op.1), Seq::empty(), Seq::empty());
    assert(tightening(ops2.push(op))) by {
        assert forall|i: int, j: int| 0 <= i < j < ops2.push(op).len() implies (
        #[trigger] ops2.push(op)[i]).1 < (#[trigger] ops2.push(op)[j]).1 by {
            if j == ops2.len() {
                assert(ops2[i].1 <= ops2.last().1);
            }
        }
    }
    assert forall|more_vals: Seq<V>, more_ops: Seq<Op>|
        more_vals.len() == more_ops.len() + 1 implies #[trigger] op_tree(
        join,
        vals2 + more_vals,
        ops2.push(op) + more_ops,
    ) == op_tree(join, vals0.push(val) + more_vals, ops0.push(op) + more_ops) by {
        let ops_behind = seq![op] + more_ops;
        lemma_settled(join, vals.push(val), ops, Some(op.1), more_vals, ops_behind);
        assert(ops2.push(op) + more_ops =~= ops2 + ops_behind);
        let vals_behind = seq![val] + more_vals;
        assert(vals.push(val) + more_vals =~= vals + vals_behind);
        assert(op_tree(join, vals + vals_behind, ops + ops_behind) == op_tree(
            join,
            vals0 + vals_behind,
            ops0 + ops_behind,
        ));
        assert(vals0 + vals_behind =~= vals0.push(val) + more_vals);
        assert(ops0 + ops_behind =~= ops0.push(op) + more_ops);
    }
}

/// The end of the stack algorithm, that reads the last operand.
pub proof fn lemma_last_round<V>(
    join: spec_fn(Spanned, V, V) -> V,
    vals: Seq<V>,
    ops: Seq<Op>,
    vals0: Seq<V>,
    ops0: Seq<Op>,
    val: V,
)
    requires
        vals.len() == ops.len(),
        tightening(ops),
        same_trees(join, vals, ops, vals0, ops0),
    ensures
        settled(join, vals.push(val), ops, None).0 == seq![
            op_tree(join, vals0.push(val), ops0),
        ],
{
    lemma_settled(join, vals.push(val), ops, None, Seq::empty(), Seq::empty());
    let (vals2, ops2) = settled(join, vals.push(val), ops, None);
    let none = Seq::<Op>::empty();
    assert(ops2 =~= none);
    assert(none + none =~= none);
    lemma_single(join, vals2);
    assert(ops + none =~= ops);
    assert(vals + seq![val] =~= vals.push(val) + Seq::<V>::empty());
    assert(vals2 + Seq::<V>::empty() =~= vals2);
    assert(op_tree(join, vals + seq![val], ops + none) == op_tree(
        join,
        vals0 + seq![val],
        ops0 + none,
    ));
    assert(vals0 + seq![val] =~= vals0.push(val));
    assert(ops0 + none =~= ops0);
    assert(vals2 =~= seq![vals2[0]]);
}

/// How tight an operator on the stack must bind to be joined before `next_op` comes.
pub open spec fn bound_at(next_op: Option<Op>) -> Option<u8> {
    match next_op {
        Some(op) => Some(op.1),
        None => None,
    }
}

/// One step of the stack algorithm. At an operator, joins what binds at least as tight as it and
/// puts it on the operator stack. At the end, joins all that is left into one operand and hands it
/// out, so that both stacks are empty; if they were empty before, there is none.
pub fn handle_op<A: DeepView>(
    next_op: Option<Op>,
    opstack: &mut Vec<Op>,
    estack: &mut Vec<A>,
    do_reduce: &impl Fn(Spanned, &mut Vec<A>),
    Ghost(join): Ghost<spec_fn(Spanned, A::V, A::V) -> A::V>,
    Ghost(valid): Ghost<spec_fn(Spanned) -> bool>,
) -> (result: Result<Option<A>, ParseError>)
    requires
        old(estack)@.len() == old(opstack)@.len() + 1 || old(estack)@.len() == 0 && old(
            opstack,
        )@.len() == 0,
        forall|i: int| 0 <= i < old(opstack)@.len() ==> valid((#[trigger] old(opstack)@[i]).0),
        forall|op: Spanned, stack: &mut Vec<A>|
            valid(op) && stack@.len() >= 2 ==> call_requires(*do_reduce, (op, stack)),
        forall|op: Spanned, stack: &mut Vec<A>|
            stack@.len() >= 2 && #[trigger] call_ensures(*do_reduce, (op, stack), ())
                ==> final(stack).deep_view() == top_joined(join, stack.deep_view(), op),
    ensures
        next_op matches Some(op) ==> {
            let (vals, ops) = settled(
                join,
                old(estack).deep_view(),
                old(opstack)@,
                Some(op.1),
            );
            &&& result matches Ok(None)
            &&& final(estack).deep_view() == vals
            &&& final(opstack)@ == ops.push(op)
            &&& valid(op.0) ==> forall|i: int|
                0 <= i < final(opstack)@.len() ==> valid((#[trigger] final(opstack)@[i]).0)
        },
        next_op is None ==> final(opstack)@.len() == 0 && final(estack)@.len() == 0,
        next_op is None && old(estack)@.len() == 0 ==> result matches Ok(None),
        next_op is None && old(estack)@.len() > 0 ==> {
            &&& result matches Ok(Some(value))
            &&& value.deep_view() == settled(
                join,
                old(estack).deep_view(),
                old(opstack)@,
                None,
            ).0[0]
        },
{
    let mut pending = next_op;
    let ghost bound = bound_at(next_op);
    let ghost start = settled(join, estack.deep_view(), opstack@, bound);
    loop
        invariant
            pending == next_op,
            bound == bound_at(next_op),
            estack@.len() == opstack@.len() + 1 || estack@.len() == 0 && opstack@.len() == 0,
            estack@.len() == 0 <==> old(estack)@.len() == 0,
            forall|i: int| 0 <= i < opstack@.len() ==> valid((#[trigger] opstack@[i]).0),
            forall|op: Spanned, stack: &mut Vec<A>|
                valid(op) && stack@.len() >= 2 ==> call_requires(*do_reduce, (op, stack)),
            forall|op: Spanned, stack: &mut Vec<A>|
                stack@.len() >= 2 && #[trigger] call_ensures(*do_reduce, (op, stack), ())
                    ==> final(stack).deep_view() == top_joined(join, stack.deep_view(), op),
            settled(join, estack.deep_view(), opstack@, bound) == start,
            start == settled(join, old(estack).deep_view(), old(opstack)@, bound),
        decreases opstack@.len(),
    {
        let ghost ops = opstack@;
        match (opstack.pop(), pending.take()) {
            (None, None) => {
                match estack.pop() {
                    Some(fin) => {
                        return Ok(Some(fin));
                    },
                    None => {
                        return Ok(None);
                    },
                }
            },
            (None, Some(op)) => {
                opstack.push(op);
                return Ok(None);
            },
            (Some((op, _)), None) => {
                do_reduce(op, estack);
                assert(opstack@ =~= ops.drop_last());
            },
            (Some((opl, pl)), Some((opr, pr))) => {
                // all operators are left associative
                if pl >= pr {
                    do_reduce(opl, estack);
                    assert(opstack@ =~= ops.drop_last());
                    pending = Some((opr, pr));
                } else {
                    opstack.push((opl, pl));
                    opstack.push((opr, pr));
                    assert(opstack@ =~= ops.push((opr, pr)));
                    return Ok(None);
                }
            },
        }
    }
}

} // verus!
