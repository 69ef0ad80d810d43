//! Laws of where trees are located.

use crate::model::{ConstantView, ExprView, GuardView, PatternView, SegmentOptionView, TypeView};
use vstd::prelude::*;

verus! {

/// A type is located where it says.
pub proof fn types_know_their_location(typ: TypeView)
    ensures
        typ matches TypeView::Constructor { location, .. } ==> typ.location() == location,
        typ matches TypeView::Fn { location, .. } ==> typ.location() == location,
        typ matches TypeView::Var { location, .. } ==> typ.location() == location,
        typ matches TypeView::Tuple { location, .. } ==> typ.location() == location,
        typ matches TypeView::Hole { location, .. } ==> typ.location() == location,
{
}

/// A constant is located where it says.
pub proof fn constants_know_their_location(constant: ConstantView)
    ensures
        constant matches ConstantView::Int { location, .. } ==> constant.location() == location,
        constant matches ConstantView::Float { location, .. } ==> constant.location() == location,
        constant matches ConstantView::String { location, .. } ==> constant.location() == location,
        constant matches ConstantView::Tuple { location, .. } ==> constant.location() == location,
        constant matches ConstantView::List { location, .. } ==> constant.location() == location,
        constant matches ConstantView::Record { location, .. } ==> constant.location() == location,
        constant matches ConstantView::BitString { location, .. } ==> constant.location()
            == location,
{
}

/// A pattern is located where it says, and one that is named where the pattern is that has the
/// name.
pub proof fn patterns_know_their_location(pat: PatternView)
    ensures
        pat matches PatternView::Let { pattern, .. } ==> pat.location() == pattern.location(),
        pat matches PatternView::Int { location, .. } ==> pat.location() == location,
        pat matches PatternView::Float { location, .. } ==> pat.location() == location,
        pat matches PatternView::String { location, .. } ==> pat.location() == location,
        pat matches PatternView::Var { location, .. } ==> pat.location() == location,
        pat matches PatternView::VarCall { location, .. } ==> pat.location() == location,
        pat matches PatternView::Discard { location, .. } ==> pat.location() == location,
        pat matches PatternView::Nil { location, .. } ==> pat.location() == location,
        pat matches PatternView::Cons { location, .. } ==> pat.location() == location,
        pat matches PatternView::Constructor { location, .. } ==> pat.location() == location,
        pat matches PatternView::Tuple { location, .. } ==> pat.location() == location,
        pat matches PatternView::BitString { location, .. } ==> pat.location() == location,
{
}

/// A guard is located where it says, and one that is a constant where the constant is.
pub proof fn guards_know_their_location(guard: GuardView)
    ensures
        guard matches GuardView::Constant(constant) ==> guard.location() == constant.location(),
        guard matches GuardView::Equals { location, .. } ==> guard.location() == location,
        guard matches GuardView::NotEquals { location, .. } ==> guard.location() == location,
        guard matches GuardView::GtInt { location, .. } ==> guard.location() == location,
        guard matches GuardView::GtEqInt { location, .. } ==> guard.location() == location,
        guard matches GuardView::LtInt { location, .. } ==> guard.location() == location,
        guard matches GuardView::LtEqInt { location, .. } ==> guard.location() == location,
        guard matches GuardView::GtFloat { location, .. } ==> guard.location() == location,
        guard matches GuardView::GtEqFloat { location, .. } ==> guard.location() == location,
        guard matches GuardView::LtFloat { location, .. } ==> guard.location() == location,
        guard matches GuardView::LtEqFloat { location, .. } ==> guard.location() == location,
        guard matches GuardView::Or { location, .. } ==> guard.location() == location,
        guard matches GuardView::And { location, .. } ==> guard.location() == location,
        guard matches GuardView::Var { location, .. } ==> guard.location() == location,
        guard matches GuardView::TupleIndex { location, .. } ==> guard.location() == location,
{
}

/// An expression is located where it says, but a sequence and a binding are where what comes last
/// in them is, and a pipe is where its right side is.
pub proof fn expressions_know_their_location(expr: ExprView)
    ensures
        expr matches ExprView::Sequence { then, .. } ==> expr.location() == then.location(),
        expr matches ExprView::Let { then, .. } ==> expr.location() == then.location(),
        expr matches ExprView::Pipe { right, .. } ==> expr.location() == right.location(),
        expr matches ExprView::Int { location, .. } ==> expr.location() == location,
        expr matches ExprView::Float { location, .. } ==> expr.location() == location,
        expr matches ExprView::String { location, .. } ==> expr.location() == location,
        expr matches ExprView::Var { location, .. } ==> expr.location() == location,
        expr matches ExprView::Fn { location, .. } ==> expr.location() == location,
        expr matches ExprView::ListNil { location, .. } ==> expr.location() == location,
        expr matches ExprView::ListCons { location, .. } ==> expr.location() == location,
        expr matches ExprView::Call { location, .. } ==> expr.location() == location,
        expr matches ExprView::BinOp { location, .. } ==> expr.location() == location,
        expr matches ExprView::Case { location, .. } ==> expr.location() == location,
        expr matches ExprView::FieldAccess { location, .. } ==> expr.location() == location,
        expr matches ExprView::Tuple { location, .. } ==> expr.location() == location,
        expr matches ExprView::TupleIndex { location, .. } ==> expr.location() == location,
        expr matches ExprView::Todo { location, .. } ==> expr.location() == location,
        expr matches ExprView::BitString { location, .. } ==> expr.location() == location,
        expr matches ExprView::RecordUpdate { location, .. } ==> expr.location() == location,
{
}

/// An option of a segment with an argument is located where it says.
pub proof fn options_know_their_location<V>(option: SegmentOptionView<V>)
    ensures
        option matches SegmentOptionView::Binary { location } ==> option.location() == location,
        option matches SegmentOptionView::Integer { location } ==> option.location() == location,
        option matches SegmentOptionView::Float { location } ==> option.location() == location,
        option matches SegmentOptionView::BitString { location } ==> option.location() == location,
        option matches SegmentOptionView::UTF8 { location } ==> option.location() == location,
        option matches SegmentOptionView::UTF16 { location } ==> option.location() == location,
        option matches SegmentOptionView::UTF32 { location } ==> option.location() == location,
        option matches SegmentOptionView::UTF8Codepoint { location } ==> option.location()
            == location,
        option matches SegmentOptionView::UTF16Codepoint { location } ==> option.location()
            == location,
        option matches SegmentOptionView::UTF32Codepoint { location } ==> option.location()
            == location,
        option matches SegmentOptionView::Signed { location } ==> option.location() == location,
        option matches SegmentOptionView::Unsigned { location } ==> option.location() == location,
        option matches SegmentOptionView::Big { location } ==> option.location() == location,
        option matches SegmentOptionView::Little { location } ==> option.location() == location,
        option matches SegmentOptionView::Native { location } ==> option.location() == location,
        option matches SegmentOptionView::Size { location, .. } ==> option.location() == location,
        option matches SegmentOptionView::Unit { location, .. } ==> option.location() == location,
{
}

} // verus!
