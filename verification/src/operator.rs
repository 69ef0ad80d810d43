//! The operators of expressions and of guards.

use crate::ast::{BinOp, ClauseGuard, SrcSpan, UntypedExpr};
use crate::location::HasLocation;
use crate::model::{ExprView, GuardView};
use crate::precedence::top_joined;
use crate::token::{Spanned, Tok};
use vstd::pervasive::unreached;
use vstd::prelude::*;

verus! {

/// The binary operator that a token stands for.
pub open spec fn binop_of(tok: Tok) -> Option<BinOp> {
    match tok {
        Tok::VbarVbar => Some(BinOp::Or),
        Tok::AmperAmper => Some(BinOp::And),
        Tok::EqualEqual => Some(BinOp::Eq),
        Tok::NotEqual => Some(BinOp::NotEq),
        Tok::Less => Some(BinOp::LtInt),
        Tok::LessEqual => Some(BinOp::LtEqInt),
        Tok::Greater => Some(BinOp::GtInt),
        Tok::GreaterEqual => Some(BinOp::GtEqInt),
        Tok::LessDot => Some(BinOp::LtFloat),
        Tok::LessEqualDot => Some(BinOp::LtEqFloat),
        Tok::GreaterDot => Some(BinOp::GtFloat),
        Tok::GreaterEqualDot => Some(BinOp::GtEqFloat),
        Tok::Plus => Some(BinOp::AddInt),
        Tok::Minus => Some(BinOp::SubInt),
        Tok::PlusDot => Some(BinOp::AddFloat),
        Tok::MinusDot => Some(BinOp::SubFloat),
        Tok::Percent => Some(BinOp::ModuloInt),
        Tok::Star => Some(BinOp::MultInt),
        Tok::StarDot => Some(BinOp::MultFloat),
        Tok::Slash => Some(BinOp::DivInt),
        Tok::SlashDot => Some(BinOp::DivFloat),
        _ => None,
    }
}

/// The precedence of a binary operator.
pub open spec fn binop_precedence(op: BinOp) -> u8 {
    match op {
        BinOp::Or => 1,
        BinOp::And => 2,
        BinOp::Eq | BinOp::NotEq => 3,
        BinOp::LtInt
        | BinOp::LtEqInt
        | BinOp::GtInt
        | BinOp::GtEqInt
        | BinOp::LtFloat
        | BinOp::LtEqFloat
        | BinOp::GtFloat
        | BinOp::GtEqFloat => 4,
        // The pipe, which is no binary operator, comes here
        BinOp::AddInt | BinOp::SubInt | BinOp::AddFloat | BinOp::SubFloat => 6,
        BinOp::ModuloInt
        | BinOp::MultInt
        | BinOp::MultFloat
        | BinOp::DivInt
        | BinOp::DivFloat => 7,
    }
}

/// The precedence of an operator between expressions; the pipe `|>` stands between order and
/// arithmetic.
pub open spec fn expr_precedence(tok: Tok) -> Option<u8> {
    if tok == Tok::Pipe {
        Some(5)
    } else {
        match binop_of(tok) {
            Some(op) => Some(binop_precedence(op)),
            None => None,
        }
    }
}

/// The precedence of an operator between guards. Guards have no arithmetic and no pipe.
pub open spec fn guard_precedence(tok: Tok) -> Option<u8> {
    match tok {
        Tok::VbarVbar => Some(1),
        Tok::AmperAmper => Some(2),
        Tok::EqualEqual | Tok::NotEqual => Some(3),
        Tok::Less
        | Tok::LessEqual
        | Tok::LessDot
        | Tok::LessEqualDot
        | Tok::GreaterEqual
        | Tok::Greater
        | Tok::GreaterEqualDot
        | Tok::GreaterDot => Some(4),
        _ => None,
    }
}

/// The expression that an operator makes of its operands.
pub open spec fn expr_join(op: Spanned, left: ExprView, right: ExprView) -> ExprView {
    if op.1 == Tok::Pipe {
        ExprView::Pipe {
            location: SrcSpan { start: op.0, end: right.location().end },
            left: Box::new(left),
            right: Box::new(right),
        }
    } else {
        ExprView::BinOp {
            location: SrcSpan { start: left.location().start, end: right.location().end },
            name: binop_of(op.1)->0,
            left: Box::new(left),
            right: Box::new(right),
        }
    }
}

/// The guard that an operator makes of its operands.
pub open spec fn guard_join(op: Spanned, l: GuardView, r: GuardView) -> GuardView {
    let location = SrcSpan { start: l.location().start, end: r.location().end };
    let left = Box::new(l);
    let right = Box::new(r);
    match op.1 {
        Tok::VbarVbar => GuardView::Or { location, left, right },
        Tok::AmperAmper => GuardView::And { location, left, right },
        Tok::EqualEqual => GuardView::Equals { location, left, right },
        Tok::NotEqual => GuardView::NotEquals { location, left, right },
        Tok::Greater => GuardView::GtInt { location, left, right },
        Tok::GreaterEqual => GuardView::GtEqInt { location, left, right },
        Tok::Less => GuardView::LtInt { location, left, right },
        Tok::LessEqual => GuardView::LtEqInt { location, left, right },
        Tok::GreaterDot => GuardView::GtFloat { location, left, right },
        Tok::GreaterEqualDot => GuardView::GtEqFloat { location, left, right },
        Tok::LessDot => GuardView::LtFloat { location, left, right },
        Tok::LessEqualDot => GuardView::LtEqFloat { location, left, right },
        _ => arbitrary(),
    }
}

/// [`expr_join`] as a value.
pub open spec fn expr_joiner() -> spec_fn(Spanned, ExprView, ExprView) -> ExprView {
    |op: Spanned, left: ExprView, right: ExprView| expr_join(op, left, right)
}

/// [`guard_join`] as a value.
pub open spec fn guard_joiner() -> spec_fn(Spanned, GuardView, GuardView) -> GuardView {
    |op: Spanned, left: GuardView, right: GuardView| guard_join(op, left, right)
}

impl BinOp {
    /// The precedence of the operator.
    pub fn precedence(&self) -> (p: u8)
        ensures
            p == binop_precedence(*self),
    {
        match self {
            BinOp::Or => 1,
            BinOp::And => 2,
            BinOp::Eq | BinOp::NotEq => 3,
            BinOp::LtInt
            | BinOp::LtEqInt
            | BinOp::GtInt
            | BinOp::GtEqInt
            | BinOp::LtFloat
            | BinOp::LtEqFloat
            | BinOp::GtFloat
            | BinOp::GtEqFloat => 4,
            // The pipe, which is no binary operator, comes here
            BinOp::AddInt | BinOp::SubInt | BinOp::AddFloat | BinOp::SubFloat => 6,
            BinOp::ModuloInt
            | BinOp::MultInt
            | BinOp::MultFloat
            | BinOp::DivInt
            | BinOp::DivFloat => 7,
        }
    }
}

impl Tok {
    /// The precedence of the token where it stands between guards.
    pub fn guard_precedence(&self) -> (p: Option<u8>)
        ensures
            p == guard_precedence(*self),
    {
        match self {
            Tok::VbarVbar => Some(1),
            Tok::AmperAmper => Some(2),
            Tok::EqualEqual | Tok::NotEqual => Some(3),
            Tok::Less
            | Tok::LessEqual
            | Tok::LessDot
            | Tok::LessEqualDot
            | Tok::GreaterEqual
            | Tok::Greater
            | Tok::GreaterEqualDot
            | Tok::GreaterDot => Some(4),
            _ => None,
        }
    }
}

/// The precedence of a token where it stands between expressions.
pub fn precedence(t: &Tok) -> (p: Option<u8>)
    ensures
        p == expr_precedence(*t),
{
    if *t == Tok::Pipe {
        return Some(5);
    }
    match tok_to_binop(t) {
        Some(b) => Some(b.precedence()),
        None => None,
    }
}

/// The binary operator that a token stands for.
pub fn tok_to_binop(t: &Tok) -> (op: Option<BinOp>)
    ensures
        op == binop_of(*t),
{
    match t {
        Tok::VbarVbar => Some(BinOp::Or),
        Tok::AmperAmper => Some(BinOp::And),
        Tok::EqualEqual => Some(BinOp::Eq),
        Tok::NotEqual => Some(BinOp::NotEq),
        Tok::Less => Some(BinOp::LtInt),
        Tok::LessEqual => Some(BinOp::LtEqInt),
        Tok::Greater => Some(BinOp::GtInt),
        Tok::GreaterEqual => Some(BinOp::GtEqInt),
        Tok::LessDot => Some(BinOp::LtFloat),
        Tok::LessEqualDot => Some(BinOp::LtEqFloat),
        Tok::GreaterDot => Some(BinOp::GtFloat),
        Tok::GreaterEqualDot => Some(BinOp::GtEqFloat),
        Tok::Plus => Some(BinOp::AddInt),
        Tok::Minus => Some(BinOp::SubInt),
        Tok::PlusDot => Some(BinOp::AddFloat),
        Tok::MinusDot => Some(BinOp::SubFloat),
        Tok::Percent => Some(BinOp::ModuloInt),
        Tok::Star => Some(BinOp::MultInt),
        Tok::StarDot => Some(BinOp::MultFloat),
        Tok::Slash => Some(BinOp::DivInt),
        Tok::SlashDot => Some(BinOp::DivFloat),
        _ => None,
    }
}

/// Joins the two topmost expressions with an operator.
pub fn do_reduce_expression(op: Spanned, estack: &mut Vec<UntypedExpr>)
    requires
        expr_precedence(op.1) is Some,
        old(estack)@.len() >= 2,
    ensures
        final(estack).deep_view() == top_joined(expr_joiner(), old(estack).deep_view(), op),
{
    match (estack.pop(), estack.pop()) {
        (Some(er), Some(el)) => {
            let new_e = expr_op_reduction(op, el, er);
            estack.push(new_e);
            assert(estack.deep_view() =~= top_joined(
                expr_joiner(),
                old(estack).deep_view(),
                op,
            ));
        },
        _ => unreached(),
    }
}

/// Joins the two topmost guards with an operator.
pub fn do_reduce_clause_guard(op: Spanned, estack: &mut Vec<ClauseGuard>)
    requires
        guard_precedence(op.1) is Some,
        old(estack)@.len() >= 2,
    ensures
        final(estack).deep_view() == top_joined(guard_joiner(), old(estack).deep_view(), op),
{
    match (estack.pop(), estack.pop()) {
        (Some(er), Some(el)) => {
            let new_e = clause_guard_reduction(op, el, er);
            estack.push(new_e);
            assert(estack.deep_view() =~= top_joined(
                guard_joiner(),
                old(estack).deep_view(),
                op,
            ));
        },
        _ => unreached(),
    }
}

/// The expression that an operator makes of its operands.
pub fn expr_op_reduction(op: Spanned, l: UntypedExpr, r: UntypedExpr) -> (e: UntypedExpr)
    requires
        expr_precedence(op.1) is Some,
    ensures
        e.deep_view() == expr_join(op, l.deep_view(), r.deep_view()),
{
    if op.1 == Tok::Pipe {
        UntypedExpr::Pipe {
            location: SrcSpan { start: op.0, end: r.location().end },
            left: Box::new(l),
            right: Box::new(r),
        }
    } else {
        match tok_to_binop(&op.1) {
            Some(bin_op) => UntypedExpr::BinOp {
                location: SrcSpan { start: l.location().start, end: r.location().end },
                name: bin_op,
                left: Box::new(l),
                right: Box::new(r),
            },
            None => unreached(),
        }
    }
}

/// The guard that an operator makes of its operands.
pub fn clause_guard_reduction(op: Spanned, l: ClauseGuard, r: ClauseGuard) -> (g: ClauseGuard)
    requires
        guard_precedence(op.1) is Some,
    ensures
        g.deep_view() == guard_join(op, l.deep_view(), r.deep_view()),
{
    let location = SrcSpan { start: l.location().start, end: r.location().end };
    let left = Box::new(l);
    let right = Box::new(r);
    match op.1 {
        Tok::VbarVbar => ClauseGuard::Or { location, left, right },
        Tok::AmperAmper => ClauseGuard::And { location, left, right },
        Tok::EqualEqual => ClauseGuard::Equals { location, left, right },
        Tok::NotEqual => ClauseGuard::NotEquals { location, left, right },
        Tok::Greater => ClauseGuard::GtInt { location, left, right },
        Tok::GreaterEqual => ClauseGuard::GtEqInt { location, left, right },
        Tok::Less => ClauseGuard::LtInt { location, left, right },
        Tok::LessEqual => ClauseGuard::LtEqInt { location, left, right },
        Tok::GreaterDot => ClauseGuard::GtFloat { location, left, right },
        Tok::GreaterEqualDot => ClauseGuard::GtEqFloat { location, left, right },
        Tok::LessDot => ClauseGuard::LtFloat { location, left, right },
        Tok::LessEqualDot => ClauseGuard::LtEqFloat { location, left, right },
        _ => unreached(),
    }
}

} // verus!
