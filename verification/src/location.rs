//! Where in the source text a tree stands.

use crate::ast::{
    BitStringSegmentOption, ClauseGuard, Constant, Pattern, SrcSpan, TypeAst, UntypedExpr,
};
use crate::model::{ConstantView, ExprView, GuardView, PatternView, SegmentOptionView, TypeView};
use vstd::prelude::*;

verus! {

/// A tree that knows the stretch of source text it came from.
pub trait HasLocation: DeepView + Sized {
    /// The location, as a function of the model.
    spec fn span_of(view: Self::V) -> SrcSpan;

    /// The location.
    fn location(&self) -> (span: SrcSpan)
        ensures
            span == Self::span_of(self.deep_view()),
    ;
}

/// The location of a tree, as a function of its model.
pub open spec fn location_in<A: HasLocation>() -> spec_fn(A::V) -> SrcSpan {
    |v: A::V| A::span_of(v)
}

impl TypeView {
    pub open spec fn location(self) -> SrcSpan {
        match self {
            TypeView::Constructor { location, .. } => location,
            TypeView::Fn { location, .. } => location,
            TypeView::Var { location, .. } => location,
            TypeView::Tuple { location, .. } => location,
            TypeView::Hole { location, .. } => location,
        }
    }
}

impl TypeAst {
    /// The location of the type.
    pub fn location(&self) -> (span: SrcSpan)
        ensures
            span == self.deep_view().location(),
    {
        match self {
            TypeAst::Constructor { location, .. } => *location,
            TypeAst::Fn { location, .. } => *location,
            TypeAst::Var { location, .. } => *location,
            TypeAst::Tuple { location, .. } => *location,
            TypeAst::Hole { location, .. } => *location,
        }
    }
}

impl<V> SegmentOptionView<V> {
    pub open spec fn location(self) -> SrcSpan {
        match self {
            SegmentOptionView::Binary { location, .. } => location,
            SegmentOptionView::Integer { location, .. } => location,
            SegmentOptionView::Float { location, .. } => location,
            SegmentOptionView::BitString { location, .. } => location,
            SegmentOptionView::UTF8 { location, .. } => location,
            SegmentOptionView::UTF16 { location, .. } => location,
            SegmentOptionView::UTF32 { location, .. } => location,
            SegmentOptionView::UTF8Codepoint { location, .. } => location,
            SegmentOptionView::UTF16Codepoint { location, .. } => location,
            SegmentOptionView::UTF32Codepoint { location, .. } => location,
            SegmentOptionView::Signed { location, .. } => location,
            SegmentOptionView::Unsigned { location, .. } => location,
            SegmentOptionView::Big { location, .. } => location,
            SegmentOptionView::Little { location, .. } => location,
            SegmentOptionView::Native { location, .. } => location,
            SegmentOptionView::Size { location, .. } => location,
            SegmentOptionView::Unit { location, .. } => location,
        }
    }
}

impl<A: DeepView> BitStringSegmentOption<A> {
    /// The location of the option.
    pub fn location(&self) -> (span: SrcSpan)
        ensures
            span == self.deep_view().location(),
    {
        match self {
            BitStringSegmentOption::Binary { location, .. } => *location,
            BitStringSegmentOption::Integer { location, .. } => *location,
            BitStringSegmentOption::Float { location, .. } => *location,
            BitStringSegmentOption::BitString { location, .. } => *location,
            BitStringSegmentOption::UTF8 { location, .. } => *location,
            BitStringSegmentOption::UTF16 { location, .. } => *location,
            BitStringSegmentOption::UTF32 { location, .. } => *location,
            BitStringSegmentOption::UTF8Codepoint { location, .. } => *location,
            BitStringSegmentOption::UTF16Codepoint { location, .. } => *location,
            BitStringSegmentOption::UTF32Codepoint { location, .. } => *location,
            BitStringSegmentOption::Signed { location, .. } => *location,
            BitStringSegmentOption::Unsigned { location, .. } => *location,
            BitStringSegmentOption::Big { location, .. } => *location,
            BitStringSegmentOption::Little { location, .. } => *location,
            BitStringSegmentOption::Native { location, .. } => *location,
            BitStringSegmentOption::Size { location, .. } => *location,
            BitStringSegmentOption::Unit { location, .. } => *location,
        }
    }
}

impl PatternView {
    /// The location of a pattern; that of `pattern as name` is the location of the inner pattern.
    pub open spec fn location(self) -> SrcSpan
        decreases self,
    {
        match self {
            PatternView::Let { pattern, .. } => pattern.location(),
            PatternView::Int { location, .. } => location,
            PatternView::Float { location, .. } => location,
            PatternView::String { location, .. } => location,
            PatternView::Var { location, .. } => location,
            PatternView::VarCall { location, .. } => location,
            PatternView::Discard { location, .. } => location,
            PatternView::Nil { location, .. } => location,
            PatternView::Cons { location, .. } => location,
            PatternView::Constructor { location, .. } => location,
            PatternView::Tuple { location, .. } => location,
            PatternView::BitString { location, .. } => location,
        }
    }
}

impl HasLocation for Pattern {
    open spec fn span_of(view: PatternView) -> SrcSpan {
        view.location()
    }

    fn location(&self) -> (span: SrcSpan)
        decreases *self,
    {
        match self {
            Pattern::Let { pattern, .. } => pattern.location(),
            Pattern::Int { location, .. } => *location,
            Pattern::Float { location, .. } => *location,
            Pattern::String { location, .. } => *location,
            Pattern::Var { location, .. } => *location,
            Pattern::VarCall { location, .. } => *location,
            Pattern::Discard { location, .. } => *location,
            Pattern::Nil { location, .. } => *location,
            Pattern::Cons { location, .. } => *location,
            Pattern::Constructor { location, .. } => *location,
            Pattern::Tuple { location, .. } => *location,
            Pattern::BitString { location, .. } => *location,
        }
    }
}

impl ConstantView {
    pub open spec fn location(self) -> SrcSpan {
        match self {
            ConstantView::Int { location, .. } => location,
            ConstantView::Float { location, .. } => location,
            ConstantView::String { location, .. } => location,
            ConstantView::Tuple { location, .. } => location,
            ConstantView::List { location, .. } => location,
            ConstantView::Record { location, .. } => location,
            ConstantView::BitString { location, .. } => location,
        }
    }
}

impl HasLocation for Constant {
    open spec fn span_of(view: ConstantView) -> SrcSpan {
        view.location()
    }

    fn location(&self) -> (span: SrcSpan) {
        match self {
            Constant::Int { location, .. } => *location,
            Constant::Float { location, .. } => *location,
            Constant::String { location, .. } => *location,
            Constant::Tuple { location, .. } => *location,
            Constant::List { location, .. } => *location,
            Constant::Record { location, .. } => *location,
            Constant::BitString { location, .. } => *location,
        }
    }
}

impl GuardView {
    pub open spec fn location(self) -> SrcSpan {
        match self {
            GuardView::Constant(constant) => constant.location(),
            GuardView::Equals { location, .. } => location,
            GuardView::NotEquals { location, .. } => location,
            GuardView::GtInt { location, .. } => location,
            GuardView::GtEqInt { location, .. } => location,
            GuardView::LtInt { location, .. } => location,
            GuardView::LtEqInt { location, .. } => location,
            GuardView::GtFloat { location, .. } => location,
            GuardView::GtEqFloat { location, .. } => location,
            GuardView::LtFloat { location, .. } => location,
            GuardView::LtEqFloat { location, .. } => location,
            GuardView::Or { location, .. } => location,
            GuardView::And { location, .. } => location,
            GuardView::Var { location, .. } => location,
            GuardView::TupleIndex { location, .. } => location,
        }
    }
}

impl HasLocation for ClauseGuard {
    open spec fn span_of(view: GuardView) -> SrcSpan {
        view.location()
    }

    fn location(&self) -> (span: SrcSpan) {
        match self {
            ClauseGuard::Constant(constant) => constant.location(),
            ClauseGuard::Equals { location, .. } => *location,
            ClauseGuard::NotEquals { location, .. } => *location,
            ClauseGuard::GtInt { location, .. } => *location,
            ClauseGuard::GtEqInt { location, .. } => *location,
            ClauseGuard::LtInt { location, .. } => *location,
            ClauseGuard::LtEqInt { location, .. } => *location,
            ClauseGuard::GtFloat { location, .. } => *location,
            ClauseGuard::GtEqFloat { location, .. } => *location,
            ClauseGuard::LtFloat { location, .. } => *location,
            ClauseGuard::LtEqFloat { location, .. } => *location,
            ClauseGuard::Or { location, .. } => *location,
            ClauseGuard::And { location, .. } => *location,
            ClauseGuard::Var { location, .. } => *location,
            ClauseGuard::TupleIndex { location, .. } => *location,
        }
    }
}

impl ExprView {
    /// The location of an expression; that of a sequence or a binding is the location of what
    /// comes last in it, that of a pipe is the location of its right side.
    pub open spec fn location(self) -> SrcSpan
        decreases self,
    {
        match self {
            ExprView::Sequence { then, .. } => then.location(),
            ExprView::Let { then, .. } => then.location(),
            ExprView::Pipe { right, .. } => right.location(),
            ExprView::Int { location, .. } => location,
            ExprView::Float { location, .. } => location,
            ExprView::String { location, .. } => location,
            ExprView::Var { location, .. } => location,
            ExprView::Fn { location, .. } => location,
            ExprView::ListNil { location, .. } => location,
            ExprView::ListCons { location, .. } => location,
            ExprView::Call { location, .. } => location,
            ExprView::BinOp { location, .. } => location,
            ExprView::Case { location, .. } => location,
            ExprView::FieldAccess { location, .. } => location,
            ExprView::Tuple { location, .. } => location,
            ExprView::TupleIndex { location, .. } => location,
            ExprView::Todo { location, .. } => location,
            ExprView::BitString { location, .. } => location,
            ExprView::RecordUpdate { location, .. } => location,
        }
    }
}

impl HasLocation for UntypedExpr {
    open spec fn span_of(view: ExprView) -> SrcSpan {
        view.location()
    }

    fn location(&self) -> (span: SrcSpan)
        decreases *self,
    {
        match self {
            UntypedExpr::Sequence { then, .. } => then.location(),
            UntypedExpr::Let { then, .. } => then.location(),
            UntypedExpr::Pipe { right, .. } => right.location(),
            UntypedExpr::Int { location, .. } => *location,
            UntypedExpr::Float { location, .. } => *location,
            UntypedExpr::String { location, .. } => *location,
            UntypedExpr::Var { location, .. } => *location,
            UntypedExpr::Fn { location, .. } => *location,
            UntypedExpr::ListNil { location, .. } => *location,
            UntypedExpr::ListCons { location, .. } => *location,
            UntypedExpr::Call { location, .. } => *location,
            UntypedExpr::BinOp { location, .. } => *location,
            UntypedExpr::Case { location, .. } => *location,
            UntypedExpr::FieldAccess { location, .. } => *location,
            UntypedExpr::Tuple { location, .. } => *location,
            UntypedExpr::TupleIndex { location, .. } => *location,
            UntypedExpr::Todo { location, .. } => *location,
            UntypedExpr::BitString { location, .. } => *location,
            UntypedExpr::RecordUpdate { location, .. } => *location,
        }
    }
}

} // verus!
