//! Mathematical models of syntax trees: the trees of [`crate::ast`] with sequences of characters
//! in place of strings and sequences of trees in place of vectors.

use crate::ast::{
    Arg, ArgNames, BinOp, BindingKind, BitStringSegment, BitStringSegmentOption, CallArg, Clause,
    ClauseGuard, Constant, ExternalFnArg, Module, Pattern, RecordConstructor, RecordConstructorArg,
    RecordUpdateSpread, SrcSpan, Statement, TypeAst, UnqualifiedImport, UntypedExpr,
    UntypedRecordUpdateArg,
};
use vstd::prelude::*;

verus! {

/// The text of a name or a literal.
pub type Text = Seq<char>;

/// The model of a [`TypeAst`].
#[verifier::ext_equal]
pub enum TypeView {
    Constructor { location: SrcSpan, module: Option<Text>, name: Text, args: Seq<TypeView> },
    Fn { location: SrcSpan, args: Seq<TypeView>, retrn: Box<TypeView> },
    Var { location: SrcSpan, name: Text },
    Tuple { location: SrcSpan, elems: Seq<TypeView> },
    Hole { location: SrcSpan, name: Text },
}

/// The model of a [`CallArg`].
#[verifier::ext_equal]
pub struct CallArgView<V> {
    pub label: Option<Text>,
    pub location: SrcSpan,
    pub value: V,
}

/// The model of a [`BitStringSegment`].
#[verifier::ext_equal]
pub struct SegmentView<V> {
    pub location: SrcSpan,
    pub value: Box<V>,
    pub options: Seq<SegmentOptionView<V>>,
}

/// The model of a [`BitStringSegmentOption`].
#[verifier::ext_equal]
pub enum SegmentOptionView<V> {
    Binary { location: SrcSpan },
    Integer { location: SrcSpan },
    Float { location: SrcSpan },
    BitString { location: SrcSpan },
    UTF8 { location: SrcSpan },
    UTF16 { location: SrcSpan },
    UTF32 { location: SrcSpan },
    UTF8Codepoint { location: SrcSpan },
    UTF16Codepoint { location: SrcSpan },
    UTF32Codepoint { location: SrcSpan },
    Signed { location: SrcSpan },
    Unsigned { location: SrcSpan },
    Big { location: SrcSpan },
    Little { location: SrcSpan },
    Native { location: SrcSpan },
    Size { location: SrcSpan, value: Box<V>, short_form: bool },
    Unit { location: SrcSpan, value: Box<V>, short_form: bool },
}

/// The model of a [`Pattern`].
#[verifier::ext_equal]
pub enum PatternView {
    Int { location: SrcSpan, value: Text },
    Float { location: SrcSpan, value: Text },
    String { location: SrcSpan, value: Text },
    Var { location: SrcSpan, name: Text },
    VarCall { location: SrcSpan, name: Text },
    Let { name: Text, pattern: Box<PatternView> },
    Discard { name: Text, location: SrcSpan },
    Nil { location: SrcSpan },
    Cons { location: SrcSpan, head: Box<PatternView>, tail: Box<PatternView> },
    Constructor {
        location: SrcSpan,
        name: Text,
        args: Seq<CallArgView<PatternView>>,
        module: Option<Text>,
        with_spread: bool,
    },
    Tuple { location: SrcSpan, elems: Seq<PatternView> },
    BitString { location: SrcSpan, segments: Seq<SegmentView<PatternView>> },
}

/// The model of a [`Constant`].
#[verifier::ext_equal]
pub enum ConstantView {
    Int { location: SrcSpan, value: Text },
    Float { location: SrcSpan, value: Text },
    String { location: SrcSpan, value: Text },
    Tuple { location: SrcSpan, elements: Seq<ConstantView> },
    List { location: SrcSpan, elements: Seq<ConstantView> },
    Record {
        location: SrcSpan,
        module: Option<Text>,
        name: Text,
        args: Seq<CallArgView<ConstantView>>,
    },
    BitString { location: SrcSpan, segments: Seq<SegmentView<ConstantView>> },
}

/// The model of a [`ClauseGuard`].
#[verifier::ext_equal]
pub enum GuardView {
    Equals { location: SrcSpan, left: Box<GuardView>, right: Box<GuardView> },
    NotEquals { location: SrcSpan, left: Box<GuardView>, right: Box<GuardView> },
    GtInt { location: SrcSpan, left: Box<GuardView>, right: Box<GuardView> },
    GtEqInt { location: SrcSpan, left: Box<GuardView>, right: Box<GuardView> },
    LtInt { location: SrcSpan, left: Box<GuardView>, right: Box<GuardView> },
    LtEqInt { location: SrcSpan, left: Box<GuardView>, right: Box<GuardView> },
    GtFloat { location: SrcSpan, left: Box<GuardView>, right: Box<GuardView> },
    GtEqFloat { location: SrcSpan, left: Box<GuardView>, right: Box<GuardView> },
    LtFloat { location: SrcSpan, left: Box<GuardView>, right: Box<GuardView> },
    LtEqFloat { location: SrcSpan, left: Box<GuardView>, right: Box<GuardView> },
    Or { location: SrcSpan, left: Box<GuardView>, right: Box<GuardView> },
    And { location: SrcSpan, left: Box<GuardView>, right: Box<GuardView> },
    Var { location: SrcSpan, name: Text },
    TupleIndex { location: SrcSpan, index: u64, tuple: Box<GuardView> },
    Constant(ConstantView),
}

/// The model of a [`Clause`].
#[verifier::ext_equal]
pub struct ClauseView {
    pub location: SrcSpan,
    pub pattern: Seq<PatternView>,
    pub alternative_patterns: Seq<Seq<PatternView>>,
    pub guard: Option<GuardView>,
    pub then: ExprView,
}

/// The model of an [`ArgNames`].
#[verifier::ext_equal]
pub enum ArgNamesView {
    Discard { name: Text },
    LabelledDiscard { label: Text, name: Text },
    Named { name: Text },
    NamedLabelled { name: Text, label: Text },
}

/// The model of an [`Arg`].
#[verifier::ext_equal]
pub struct ArgView {
    pub names: ArgNamesView,
    pub location: SrcSpan,
    pub annotation: Option<TypeView>,
}

/// The model of an [`UntypedRecordUpdateArg`].
#[verifier::ext_equal]
pub struct RecordUpdateArgView {
    pub label: Text,
    pub location: SrcSpan,
    pub value: ExprView,
}

/// The model of a [`RecordUpdateSpread`].
#[verifier::ext_equal]
pub struct SpreadView {
    pub name: Text,
    pub location: SrcSpan,
}

/// The model of an [`UntypedExpr`].
#[verifier::ext_equal]
pub enum ExprView {
    Int { location: SrcSpan, value: Text },
    Float { location: SrcSpan, value: Text },
    String { location: SrcSpan, value: Text },
    Sequence { first: Box<ExprView>, then: Box<ExprView> },
    Var { location: SrcSpan, name: Text },
    Fn {
        location: SrcSpan,
        is_capture: bool,
        args: Seq<ArgView>,
        body: Box<ExprView>,
        return_annotation: Option<TypeView>,
    },
    ListNil { location: SrcSpan },
    ListCons { location: SrcSpan, head: Box<ExprView>, tail: Box<ExprView> },
    Call { location: SrcSpan, fun: Box<ExprView>, args: Seq<CallArgView<ExprView>> },
    BinOp { location: SrcSpan, name: BinOp, left: Box<ExprView>, right: Box<ExprView> },
    Pipe { location: SrcSpan, left: Box<ExprView>, right: Box<ExprView> },
    Let {
        location: SrcSpan,
        value: Box<ExprView>,
        pattern: PatternView,
        then: Box<ExprView>,
        kind: BindingKind,
        annotation: Option<TypeView>,
    },
    Case { location: SrcSpan, subjects: Seq<ExprView>, clauses: Seq<ClauseView> },
    FieldAccess { location: SrcSpan, label: Text, container: Box<ExprView> },
    Tuple { location: SrcSpan, elems: Seq<ExprView> },
    TupleIndex { location: SrcSpan, index: u64, tuple: Box<ExprView> },
    Todo { location: SrcSpan, label: Option<Text> },
    BitString { location: SrcSpan, segments: Seq<SegmentView<ExprView>> },
    RecordUpdate {
        location: SrcSpan,
        constructor: Box<ExprView>,
        spread: SpreadView,
        args: Seq<RecordUpdateArgView>,
    },
}

/// The model of a [`RecordConstructorArg`].
#[verifier::ext_equal]
pub struct RecordConstructorArgView {
    pub label: Option<Text>,
    pub ast: TypeView,
    pub location: SrcSpan,
}

/// The model of a [`RecordConstructor`].
#[verifier::ext_equal]
pub struct RecordConstructorView {
    pub location: SrcSpan,
    pub name: Text,
    pub args: Seq<RecordConstructorArgView>,
    pub documentation: Option<Text>,
}

/// The model of an [`ExternalFnArg`].
#[verifier::ext_equal]
pub struct ExternalFnArgView {
    pub location: SrcSpan,
    pub label: Option<Text>,
    pub annotation: TypeView,
}

/// The model of an [`UnqualifiedImport`].
#[verifier::ext_equal]
pub struct UnqualifiedImportView {
    pub location: SrcSpan,
    pub name: Text,
    pub as_name: Option<Text>,
}

/// The model of a [`Statement`].
#[verifier::ext_equal]
pub enum StatementView {
    Fn {
        location: SrcSpan,
        end_location: usize,
        name: Text,
        args: Seq<ArgView>,
        body: ExprView,
        public: bool,
        return_annotation: Option<TypeView>,
        doc: Option<Text>,
    },
    TypeAlias {
        location: SrcSpan,
        alias: Text,
        args: Seq<Text>,
        resolved_type: TypeView,
        public: bool,
        doc: Option<Text>,
    },
    CustomType {
        location: SrcSpan,
        name: Text,
        parameters: Seq<Text>,
        public: bool,
        constructors: Seq<RecordConstructorView>,
        doc: Option<Text>,
        opaque: bool,
        typed_parameters: Seq<()>,
    },
    ExternalFn {
        location: SrcSpan,
        public: bool,
        args: Seq<ExternalFnArgView>,
        name: Text,
        retrn: TypeView,
        module: Text,
        fun: Text,
        doc: Option<Text>,
    },
    ExternalType {
        location: SrcSpan,
        public: bool,
        name: Text,
        args: Seq<Text>,
        doc: Option<Text>,
    },
    Import {
        location: SrcSpan,
        module: Seq<Text>,
        as_name: Option<Text>,
        unqualified: Seq<UnqualifiedImportView>,
    },
    ModuleConstant {
        doc: Option<Text>,
        location: SrcSpan,
        public: bool,
        name: Text,
        annotation: Option<TypeView>,
        value: Box<ConstantView>,
    },
}

/// The model of a [`Module`].
#[verifier::ext_equal]
pub struct ModuleView {
    pub name: Seq<Text>,
    pub documentation: Seq<Text>,
    pub statements: Seq<StatementView>,
}

// Types
pub open spec fn type_view(t: TypeAst) -> TypeView
    decreases t,
{
    match t {
        TypeAst::Constructor { location, module, name, args } => TypeView::Constructor {
            location,
            module: module.deep_view(),
            name: name@,
            args: types_view(args@),
        },
        TypeAst::Fn { location, args, retrn } => TypeView::Fn {
            location,
            args: types_view(args@),
            retrn: Box::new(type_view(*retrn)),
        },
        TypeAst::Var { location, name } => TypeView::Var { location, name: name@ },
        TypeAst::Tuple { location, elems } => TypeView::Tuple {
            location,
            elems: types_view(elems@),
        },
        TypeAst::Hole { location, name } => TypeView::Hole { location, name: name@ },
    }
}

pub open spec fn types_view(s: Seq<TypeAst>) -> Seq<TypeView>
    decreases s,
{
    Seq::new(
        s.len(),
        |i: int|
            if 0 <= i < s.len() {
                type_view(s[i])
            } else {
                arbitrary()
            },
    )
}

impl DeepView for TypeAst {
    type V = TypeView;

    open spec fn deep_view(&self) -> TypeView {
        type_view(*self)
    }
}

pub proof fn types_view_is_deep_view(v: Vec<TypeAst>)
    ensures
        types_view(v@) == v.deep_view(),
{
    assert(types_view(v@) =~= v.deep_view());
}

// Parts that are shared by patterns, constants and expressions
impl DeepView for SrcSpan {
    type V = SrcSpan;

    open spec fn deep_view(&self) -> SrcSpan {
        *self
    }
}

impl<A: DeepView> DeepView for CallArg<A> {
    type V = CallArgView<A::V>;

    open spec fn deep_view(&self) -> CallArgView<A::V> {
        CallArgView {
            label: self.label.deep_view(),
            location: self.location,
            value: self.value.deep_view(),
        }
    }
}

impl<A: DeepView> DeepView for BitStringSegment<A> {
    type V = SegmentView<A::V>;

    open spec fn deep_view(&self) -> SegmentView<A::V> {
        SegmentView {
            location: self.location,
            value: Box::new(self.value.deep_view()),
            options: self.options.deep_view(),
        }
    }
}

/// The model of a segment option that holds no tree.
pub open spec fn plain_option_view<A, V>(option: BitStringSegmentOption<A>) -> SegmentOptionView<V> {
    match option {
        BitStringSegmentOption::Binary { location } => SegmentOptionView::Binary { location },
        BitStringSegmentOption::Integer { location } => SegmentOptionView::Integer { location },
        BitStringSegmentOption::Float { location } => SegmentOptionView::Float { location },
        BitStringSegmentOption::BitString { location } => SegmentOptionView::BitString { location },
        BitStringSegmentOption::UTF8 { location } => SegmentOptionView::UTF8 { location },
        BitStringSegmentOption::UTF16 { location } => SegmentOptionView::UTF16 { location },
        BitStringSegmentOption::UTF32 { location } => SegmentOptionView::UTF32 { location },
        BitStringSegmentOption::UTF8Codepoint { location } => SegmentOptionView::UTF8Codepoint {
            location,
        },
        BitStringSegmentOption::UTF16Codepoint { location } => SegmentOptionView::UTF16Codepoint {
            location,
        },
        BitStringSegmentOption::UTF32Codepoint { location } => SegmentOptionView::UTF32Codepoint {
            location,
        },
        BitStringSegmentOption::Signed { location } => SegmentOptionView::Signed { location },
        BitStringSegmentOption::Unsigned { location } => SegmentOptionView::Unsigned { location },
        BitStringSegmentOption::Big { location } => SegmentOptionView::Big { location },
        BitStringSegmentOption::Little { location } => SegmentOptionView::Little { location },
        BitStringSegmentOption::Native { location } => SegmentOptionView::Native { location },
        _ => arbitrary(),
    }
}

impl<A: DeepView> DeepView for BitStringSegmentOption<A> {
    type V = SegmentOptionView<A::V>;

    open spec fn deep_view(&self) -> SegmentOptionView<A::V> {
        match *self {
            BitStringSegmentOption::Size { location, value, short_form } =>
                SegmentOptionView::Size {
                location,
                value: Box::new(value.deep_view()),
                short_form,
            },
            BitStringSegmentOption::Unit { location, value, short_form } =>
                SegmentOptionView::Unit {
                location,
                value: Box::new(value.deep_view()),
                short_form,
            },
            option => plain_option_view(option),
        }
    }
}

// Patterns
pub open spec fn pattern_view(p: Pattern) -> PatternView
    decreases p,
{
    match p {
        Pattern::Int { location, value } => PatternView::Int { location, value: value@ },
        Pattern::Float { location, value } => PatternView::Float { location, value: value@ },
        Pattern::String { location, value } => PatternView::String { location, value: value@ },
        Pattern::Var { location, name } => PatternView::Var { location, name: name@ },
        Pattern::VarCall { location, name, typ: _ } => PatternView::VarCall {
            location,
            name: name@,
        },
        Pattern::Let { name, pattern } => PatternView::Let {
            name: name@,
            pattern: Box::new(pattern_view(*pattern)),
        },
        Pattern::Discard { name, location } => PatternView::Discard { name: name@, location },
        Pattern::Nil { location } => PatternView::Nil { location },
        Pattern::Cons { location, head, tail } => PatternView::Cons {
            location,
            head: Box::new(pattern_view(*head)),
            tail: Box::new(pattern_view(*tail)),
        },
        Pattern::Constructor { location, name, args, module, constructor: _, with_spread } =>
            PatternView::Constructor {
            location,
            name: name@,
            args: pattern_args_view(args@),
            module: module.deep_view(),
            with_spread,
        },
        Pattern::Tuple { location, elems } => PatternView::Tuple {
            location,
            elems: patterns_view(elems@),
        },
        Pattern::BitString { location, segments } => PatternView::BitString {
            location,
            segments: pattern_segments_view(segments@),
        },
    }
}

pub open spec fn patterns_view(s: Seq<Pattern>) -> Seq<PatternView>
    decreases s,
{
    Seq::new(
        s.len(),
        |i: int|
            if 0 <= i < s.len() {
                pattern_view(s[i])
            } else {
                arbitrary()
            },
    )
}

pub open spec fn pattern_args_view(s: Seq<CallArg<Pattern>>) -> Seq<CallArgView<PatternView>>
    decreases s,
{
    Seq::new(
        s.len(),
        |i: int|
            if 0 <= i < s.len() {
                CallArgView {
                    label: s[i].label.deep_view(),
                    location: s[i].location,
                    value: pattern_view(s[i].value),
                }
            } else {
                arbitrary()
            },
    )
}

pub open spec fn pattern_option_view(
    option: BitStringSegmentOption<Pattern>,
) -> SegmentOptionView<PatternView>
    decreases option,
{
    match option {
        BitStringSegmentOption::Size { location, value, short_form } => SegmentOptionView::Size {
            location,
            value: Box::new(pattern_view(*value)),
            short_form,
        },
        BitStringSegmentOption::Unit { location, value, short_form } => SegmentOptionView::Unit {
            location,
            value: Box::new(pattern_view(*value)),
            short_form,
        },
        option => plain_option_view(option),
    }
}

pub open spec fn pattern_options_view(
    s: Seq<BitStringSegmentOption<Pattern>>,
) -> Seq<SegmentOptionView<PatternView>>
    decreases s,
{
    Seq::new(
        s.len(),
        |i: int|
            if 0 <= i < s.len() {
                pattern_option_view(s[i])
            } else {
                arbitrary()
            },
    )
}

pub open spec fn pattern_segments_view(
    s: Seq<BitStringSegment<Pattern>>,
) -> Seq<SegmentView<PatternView>>
    decreases s,
{
    Seq::new(
        s.len(),
        |i: int|
            if 0 <= i < s.len() {
                SegmentView {
                    location: s[i].location,
                    value: Box::new(pattern_view(*s[i].value)),
                    options: pattern_options_view(s[i].options@),
                }
            } else {
                arbitrary()
            },
    )
}

impl DeepView for Pattern {
    type V = PatternView;

    open spec fn deep_view(&self) -> PatternView {
        pattern_view(*self)
    }
}

pub proof fn patterns_view_is_deep_view(v: Vec<Pattern>)
    ensures
        patterns_view(v@) == v.deep_view(),
{
    assert(patterns_view(v@) =~= v.deep_view());
}

pub proof fn pattern_args_view_is_deep_view(v: Vec<CallArg<Pattern>>)
    ensures
        pattern_args_view(v@) == v.deep_view(),
{
    assert(pattern_args_view(v@) =~= v.deep_view());
}

pub proof fn pattern_options_view_is_deep_view(v: Vec<BitStringSegmentOption<Pattern>>)
    ensures
        pattern_options_view(v@) == v.deep_view(),
{
    assert(pattern_options_view(v@) =~= v.deep_view());
}

pub proof fn pattern_segments_view_is_deep_view(v: Vec<BitStringSegment<Pattern>>)
    ensures
        pattern_segments_view(v@) == v.deep_view(),
{
    assert forall|i: int| 0 <= i < v@.len() implies pattern_segments_view(v@)[i]
        == v@[i].deep_view() by {
        pattern_options_view_is_deep_view(v@[i].options);
    }
    assert(pattern_segments_view(v@) =~= v.deep_view());
}

// Constants
pub open spec fn constant_view(c: Constant) -> ConstantView
    decreases c,
{
    match c {
        Constant::Int { location, value } => ConstantView::Int { location, value: value@ },
        Constant::Float { location, value } => ConstantView::Float { location, value: value@ },
        Constant::String { location, value } => ConstantView::String { location, value: value@ },
        Constant::Tuple { location, elements } => ConstantView::Tuple {
            location,
            elements: constants_view(elements@),
        },
        Constant::List { location, elements, typ: _ } => ConstantView::List {
            location,
            elements: constants_view(elements@),
        },
        Constant::Record { location, module, name, args, tag: _, typ: _ } =>
            ConstantView::Record {
            location,
            module: module.deep_view(),
            name: name@,
            args: constant_args_view(args@),
        },
        Constant::BitString { location, segments } => ConstantView::BitString {
            location,
            segments: constant_segments_view(segments@),
        },
    }
}

pub open spec fn constants_view(s: Seq<Constant>) -> Seq<ConstantView>
    decreases s,
{
    Seq::new(
        s.len(),
        |i: int|
            if 0 <= i < s.len() {
                constant_view(s[i])
            } else {
                arbitrary()
            },
    )
}

pub open spec fn constant_args_view(s: Seq<CallArg<Constant>>) -> Seq<CallArgView<ConstantView>>
    decreases s,
{
    Seq::new(
        s.len(),
        |i: int|
            if 0 <= i < s.len() {
                CallArgView {
                    label: s[i].label.deep_view(),
                    location: s[i].location,
                    value: constant_view(s[i].value),
                }
            } else {
                arbitrary()
            },
    )
}

pub open spec fn constant_option_view(
    option: BitStringSegmentOption<Constant>,
) -> SegmentOptionView<ConstantView>
    decreases option,
{
    match option {
        BitStringSegmentOption::Size { location, value, short_form } => SegmentOptionView::Size {
            location,
            value: Box::new(constant_view(*value)),
            short_form,
        },
        BitStringSegmentOption::Unit { location, value, short_form } => SegmentOptionView::Unit {
            location,
            value: Box::new(constant_view(*value)),
            short_form,
        },
        option => plain_option_view(option),
    }
}

pub open spec fn constant_options_view(
    s: Seq<BitStringSegmentOption<Constant>>,
) -> Seq<SegmentOptionView<ConstantView>>
    decreases s,
{
    Seq::new(
        s.len(),
        |i: int|
            if 0 <= i < s.len() {
                constant_option_view(s[i])
            } else {
                arbitrary()
            },
    )
}

pub open spec fn constant_segments_view(
    s: Seq<BitStringSegment<Constant>>,
) -> Seq<SegmentView<ConstantView>>
    decreases s,
{
    Seq::new(
        s.len(),
        |i: int|
            if 0 <= i < s.len() {
                SegmentView {
                    location: s[i].location,
                    value: Box::new(constant_view(*s[i].value)),
                    options: constant_options_view(s[i].options@),
                }
            } else {
                arbitrary()
            },
    )
}

impl DeepView for Constant {
    type V = ConstantView;

    open spec fn deep_view(&self) -> ConstantView {
        constant_view(*self)
    }
}

pub proof fn constants_view_is_deep_view(v: Vec<Constant>)
    ensures
        constants_view(v@) == v.deep_view(),
{
    assert(constants_view(v@) =~= v.deep_view());
}

pub proof fn constant_args_view_is_deep_view(v: Vec<CallArg<Constant>>)
    ensures
        constant_args_view(v@) == v.deep_view(),
{
    assert(constant_args_view(v@) =~= v.deep_view());
}

pub proof fn constant_options_view_is_deep_view(v: Vec<BitStringSegmentOption<Constant>>)
    ensures
        constant_options_view(v@) == v.deep_view(),
{
    assert(constant_options_view(v@) =~= v.deep_view());
}

pub proof fn constant_segments_view_is_deep_view(v: Vec<BitStringSegment<Constant>>)
    ensures
        constant_segments_view(v@) == v.deep_view(),
{
    assert forall|i: int| 0 <= i < v@.len() implies constant_segments_view(v@)[i]
        == v@[i].deep_view() by {
        constant_options_view_is_deep_view(v@[i].options);
    }
    assert(constant_segments_view(v@) =~= v.deep_view());
}

// Guards
pub open spec fn guard_view(g: ClauseGuard) -> GuardView
    decreases g,
{
    match g {
        ClauseGuard::Equals { location, left, right } => GuardView::Equals {
            location,
            left: Box::new(guard_view(*left)),
            right: Box::new(guard_view(*right)),
        },
        ClauseGuard::NotEquals { location, left, right } => GuardView::NotEquals {
            location,
            left: Box::new(guard_view(*left)),
            right: Box::new(guard_view(*right)),
        },
        ClauseGuard::GtInt { location, left, right } => GuardView::GtInt {
            location,
            left: Box::new(guard_view(*left)),
            right: Box::new(guard_view(*right)),
        },
        ClauseGuard::GtEqInt { location, left, right } => GuardView::GtEqInt {
            location,
            left: Box::new(guard_view(*left)),
            right: Box::new(guard_view(*right)),
        },
        ClauseGuard::LtInt { location, left, right } => GuardView::LtInt {
            location,
            left: Box::new(guard_view(*left)),
            right: Box::new(guard_view(*right)),
        },
        ClauseGuard::LtEqInt { location, left, right } => GuardView::LtEqInt {
            location,
            left: Box::new(guard_view(*left)),
            right: Box::new(guard_view(*right)),
        },
        ClauseGuard::GtFloat { location, left, right } => GuardView::GtFloat {
            location,
            left: Box::new(guard_view(*left)),
            right: Box::new(guard_view(*right)),
        },
        ClauseGuard::GtEqFloat { location, left, right } => GuardView::GtEqFloat {
            location,
            left: Box::new(guard_view(*left)),
            right: Box::new(guard_view(*right)),
        },
        ClauseGuard::LtFloat { location, left, right } => GuardView::LtFloat {
            location,
            left: Box::new(guard_view(*left)),
            right: Box::new(guard_view(*right)),
        },
        ClauseGuard::LtEqFloat { location, left, right } => GuardView::LtEqFloat {
            location,
            left: Box::new(guard_view(*left)),
            right: Box::new(guard_view(*right)),
        },
        ClauseGuard::Or { location, left, right } => GuardView::Or {
            location,
            left: Box::new(guard_view(*left)),
            right: Box::new(guard_view(*right)),
        },
        ClauseGuard::And { location, left, right } => GuardView::And {
            location,
            left: Box::new(guard_view(*left)),
            right: Box::new(guard_view(*right)),
        },
        ClauseGuard::Var { location, typ: _, name } => GuardView::Var { location, name: name@ },
        ClauseGuard::TupleIndex { location, index, typ: _, tuple } => GuardView::TupleIndex {
            location,
            index,
            tuple: Box::new(guard_view(*tuple)),
        },
        ClauseGuard::Constant(constant) => GuardView::Constant(constant_view(constant)),
    }
}

impl DeepView for ClauseGuard {
    type V = GuardView;

    open spec fn deep_view(&self) -> GuardView {
        guard_view(*self)
    }
}

// Parameters
impl DeepView for ArgNames {
    type V = ArgNamesView;

    open spec fn deep_view(&self) -> ArgNamesView {
        match *self {
            ArgNames::Discard { name } => ArgNamesView::Discard { name: name@ },
            ArgNames::LabelledDiscard { label, name } => ArgNamesView::LabelledDiscard {
                label: label@,
                name: name@,
            },
            ArgNames::Named { name } => ArgNamesView::Named { name: name@ },
            ArgNames::NamedLabelled { name, label } => ArgNamesView::NamedLabelled {
                name: name@,
                label: label@,
            },
        }
    }
}

impl DeepView for Arg {
    type V = ArgView;

    open spec fn deep_view(&self) -> ArgView {
        ArgView {
            names: self.names.deep_view(),
            location: self.location,
            annotation: self.annotation.deep_view(),
        }
    }
}

impl DeepView for RecordUpdateSpread {
    type V = SpreadView;

    open spec fn deep_view(&self) -> SpreadView {
        SpreadView { name: self.name@, location: self.location }
    }
}

// Expressions
pub open spec fn expr_view(e: UntypedExpr) -> ExprView
    decreases e,
{
    match e {
        UntypedExpr::Int { location, value } => ExprView::Int { location, value: value@ },
        UntypedExpr::Float { location, value } => ExprView::Float { location, value: value@ },
        UntypedExpr::String { location, value } => ExprView::String { location, value: value@ },
        UntypedExpr::Sequence { first, then } => ExprView::Sequence {
            first: Box::new(expr_view(*first)),
            then: Box::new(expr_view(*then)),
        },
        UntypedExpr::Var { location, name } => ExprView::Var { location, name: name@ },
        UntypedExpr::Fn { location, is_capture, args, body, return_annotation } => ExprView::Fn {
            location,
            is_capture,
            args: args.deep_view(),
            body: Box::new(expr_view(*body)),
            return_annotation: return_annotation.deep_view(),
        },
        UntypedExpr::ListNil { location } => ExprView::ListNil { location },
        UntypedExpr::ListCons { location, head, tail } => ExprView::ListCons {
            location,
            head: Box::new(expr_view(*head)),
            tail: Box::new(expr_view(*tail)),
        },
        UntypedExpr::Call { location, fun, args } => ExprView::Call {
            location,
            fun: Box::new(expr_view(*fun)),
            args: expr_args_view(args@),
        },
        UntypedExpr::BinOp { location, name, left, right } => ExprView::BinOp {
            location,
            name,
            left: Box::new(expr_view(*left)),
            right: Box::new(expr_view(*right)),
        },
        UntypedExpr::Pipe { location, left, right } => ExprView::Pipe {
            location,
            left: Box::new(expr_view(*left)),
            right: Box::new(expr_view(*right)),
        },
        UntypedExpr::Let { location, value, pattern, then, kind, annotation } => ExprView::Let {
            location,
            value: Box::new(expr_view(*value)),
            pattern: pattern_view(pattern),
            then: Box::new(expr_view(*then)),
            kind,
            annotation: annotation.deep_view(),
        },
        UntypedExpr::Case { location, subjects, clauses } => ExprView::Case {
            location,
            subjects: exprs_view(subjects@),
            clauses: clauses_view(clauses@),
        },
        UntypedExpr::FieldAccess { location, label, container } => ExprView::FieldAccess {
            location,
            label: label@,
            container: Box::new(expr_view(*container)),
        },
        UntypedExpr::Tuple { location, elems } => ExprView::Tuple {
            location,
            elems: exprs_view(elems@),
        },
        UntypedExpr::TupleIndex { location, index, tuple } => ExprView::TupleIndex {
            location,
            index,
            tuple: Box::new(expr_view(*tuple)),
        },
        UntypedExpr::Todo { location, label } => ExprView::Todo {
            location,
            label: label.deep_view(),
        },
        UntypedExpr::BitString { location, segments } => ExprView::BitString {
            location,
            segments: expr_segments_view(segments@),
        },
        UntypedExpr::RecordUpdate { location, constructor, spread, args } =>
            ExprView::RecordUpdate {
            location,
            constructor: Box::new(expr_view(*constructor)),
            spread: spread.deep_view(),
            args: update_args_view(args@),
        },
    }
}

pub open spec fn exprs_view(s: Seq<UntypedExpr>) -> Seq<ExprView>
    decreases s,
{
    Seq::new(
        s.len(),
        |i: int|
            if 0 <= i < s.len() {
                expr_view(s[i])
            } else {
                arbitrary()
            },
    )
}

pub open spec fn expr_args_view(s: Seq<CallArg<UntypedExpr>>) -> Seq<CallArgView<ExprView>>
    decreases s,
{
    Seq::new(
        s.len(),
        |i: int|
            if 0 <= i < s.len() {
                CallArgView {
                    label: s[i].label.deep_view(),
                    location: s[i].location,
                    value: expr_view(s[i].value),
                }
            } else {
                arbitrary()
            },
    )
}

pub open spec fn expr_option_view(
    option: BitStringSegmentOption<UntypedExpr>,
) -> SegmentOptionView<ExprView>
    decreases option,
{
    match option {
        BitStringSegmentOption::Size { location, value, short_form } => SegmentOptionView::Size {
            location,
            value: Box::new(expr_view(*value)),
            short_form,
        },
        BitStringSegmentOption::Unit { location, value, short_form } => SegmentOptionView::Unit {
            location,
            value: Box::new(expr_view(*value)),
            short_form,
        },
        option => plain_option_view(option),
    }
}

pub open spec fn expr_options_view(
    s: Seq<BitStringSegmentOption<UntypedExpr>>,
) -> Seq<SegmentOptionView<ExprView>>
    decreases s,
{
    Seq::new(
        s.len(),
        |i: int|
            if 0 <= i < s.len() {
                expr_option_view(s[i])
            } else {
                arbitrary()
            },
    )
}

pub open spec fn expr_segments_view(
    s: Seq<BitStringSegment<UntypedExpr>>,
) -> Seq<SegmentView<ExprView>>
    decreases s,
{
    Seq::new(
        s.len(),
        |i: int|
            if 0 <= i < s.len() {
                SegmentView {
                    location: s[i].location,
                    value: Box::new(expr_view(*s[i].value)),
                    options: expr_options_view(s[i].options@),
                }
            } else {
                arbitrary()
            },
    )
}

pub open spec fn clauses_view(s: Seq<Clause>) -> Seq<ClauseView>
    decreases s,
{
    Seq::new(
        s.len(),
        |i: int|
            if 0 <= i < s.len() {
                match s[i] {
                    Clause { location, pattern, alternative_patterns, guard, then } => ClauseView {
                        location,
                        pattern: pattern.deep_view(),
                        alternative_patterns: alternative_patterns.deep_view(),
                        guard: guard.deep_view(),
                        then: expr_view(then),
                    },
                }
            } else {
                arbitrary()
            },
    )
}

pub open spec fn update_args_view(s: Seq<UntypedRecordUpdateArg>) -> Seq<RecordUpdateArgView>
    decreases s,
{
    Seq::new(
        s.len(),
        |i: int|
            if 0 <= i < s.len() {
                RecordUpdateArgView {
                    label: s[i].label@,
                    location: s[i].location,
                    value: expr_view(s[i].value),
                }
            } else {
                arbitrary()
            },
    )
}

impl DeepView for UntypedExpr {
    type V = ExprView;

    open spec fn deep_view(&self) -> ExprView {
        expr_view(*self)
    }
}

pub proof fn exprs_view_is_deep_view(v: Vec<UntypedExpr>)
    ensures
        exprs_view(v@) == v.deep_view(),
{
    assert(exprs_view(v@) =~= v.deep_view());
}

pub proof fn expr_args_view_is_deep_view(v: Vec<CallArg<UntypedExpr>>)
    ensures
        expr_args_view(v@) == v.deep_view(),
{
    assert(expr_args_view(v@) =~= v.deep_view());
}

pub proof fn expr_options_view_is_deep_view(v: Vec<BitStringSegmentOption<UntypedExpr>>)
    ensures
        expr_options_view(v@) == v.deep_view(),
{
    assert(expr_options_view(v@) =~= v.deep_view());
}

pub proof fn expr_segments_view_is_deep_view(v: Vec<BitStringSegment<UntypedExpr>>)
    ensures
        expr_segments_view(v@) == v.deep_view(),
{
    assert forall|i: int| 0 <= i < v@.len() implies expr_segments_view(v@)[i]
        == v@[i].deep_view() by {
        expr_options_view_is_deep_view(v@[i].options);
    }
    assert(expr_segments_view(v@) =~= v.deep_view());
}

impl DeepView for Clause {
    type V = ClauseView;

    open spec fn deep_view(&self) -> ClauseView {
        match *self {
            Clause { location, pattern, alternative_patterns, guard, then } => ClauseView {
                location,
                pattern: pattern.deep_view(),
                alternative_patterns: alternative_patterns.deep_view(),
                guard: guard.deep_view(),
                then: expr_view(then),
            },
        }
    }
}

impl DeepView for UntypedRecordUpdateArg {
    type V = RecordUpdateArgView;

    open spec fn deep_view(&self) -> RecordUpdateArgView {
        RecordUpdateArgView {
            label: self.label@,
            location: self.location,
            value: expr_view(self.value),
        }
    }
}

pub proof fn clauses_view_is_deep_view(v: Vec<Clause>)
    ensures
        clauses_view(v@) == v.deep_view(),
{
    assert(clauses_view(v@) =~= v.deep_view());
}

pub proof fn update_args_view_is_deep_view(v: Vec<UntypedRecordUpdateArg>)
    ensures
        update_args_view(v@) == v.deep_view(),
{
    assert(update_args_view(v@) =~= v.deep_view());
}

// Statements
impl DeepView for RecordConstructorArg {
    type V = RecordConstructorArgView;

    open spec fn deep_view(&self) -> RecordConstructorArgView {
        RecordConstructorArgView {
            label: self.label.deep_view(),
            ast: self.ast.deep_view(),
            location: self.location,
        }
    }
}

impl DeepView for RecordConstructor {
    type V = RecordConstructorView;

    open spec fn deep_view(&self) -> RecordConstructorView {
        RecordConstructorView {
            location: self.location,
            name: self.name@,
            args: self.args.deep_view(),
            documentation: self.documentation.deep_view(),
        }
    }
}

impl DeepView for ExternalFnArg {
    type V = ExternalFnArgView;

    open spec fn deep_view(&self) -> ExternalFnArgView {
        ExternalFnArgView {
            location: self.location,
            label: self.label.deep_view(),
            annotation: self.annotation.deep_view(),
        }
    }
}

impl DeepView for UnqualifiedImport {
    type V = UnqualifiedImportView;

    open spec fn deep_view(&self) -> UnqualifiedImportView {
        UnqualifiedImportView {
            location: self.location,
            name: self.name@,
            as_name: self.as_name.deep_view(),
        }
    }
}

impl DeepView for Statement {
    type V = StatementView;

    open spec fn deep_view(&self) -> StatementView {
        match *self {
            Statement::Fn {
                location,
                end_location,
                name,
                args,
                body,
                public,
                return_annotation,
                return_type: _,
                doc,
            } => StatementView::Fn {
                location,
                end_location,
                name: name@,
                args: args.deep_view(),
                body: body.deep_view(),
                public,
                return_annotation: return_annotation.deep_view(),
                doc: doc.deep_view(),
            },
            Statement::TypeAlias { location, alias, args, resolved_type, public, typ: _, doc } =>
                StatementView::TypeAlias {
                location,
                alias: alias@,
                args: args.deep_view(),
                resolved_type: resolved_type.deep_view(),
                public,
                doc: doc.deep_view(),
            },
            Statement::CustomType {
                location,
                name,
                parameters,
                public,
                constructors,
                doc,
                opaque,
                typed_parameters,
            } => StatementView::CustomType {
                location,
                name: name@,
                parameters: parameters.deep_view(),
                public,
                constructors: constructors.deep_view(),
                doc: doc.deep_view(),
                opaque,
                typed_parameters: typed_parameters@,
            },
            Statement::ExternalFn {
                location,
                public,
                args,
                name,
                retrn,
                return_type: _,
                module,
                fun,
                doc,
            } => StatementView::ExternalFn {
                location,
                public,
                args: args.deep_view(),
                name: name@,
                retrn: retrn.deep_view(),
                module: module@,
                fun: fun@,
                doc: doc.deep_view(),
            },
            Statement::ExternalType { location, public, name, args, doc } =>
                StatementView::ExternalType {
                location,
                public,
                name: name@,
                args: args.deep_view(),
                doc: doc.deep_view(),
            },
            Statement::Import { location, module, as_name, unqualified } =>
                StatementView::Import {
                location,
                module: module.deep_view(),
                as_name: as_name.deep_view(),
                unqualified: unqualified.deep_view(),
            },
            Statement::ModuleConstant { doc, location, public, name, annotation, value, typ: _ } =>
                StatementView::ModuleConstant {
                doc: doc.deep_view(),
                location,
                public,
                name: name@,
                annotation: annotation.deep_view(),
                value: Box::new(value.deep_view()),
            },
        }
    }
}

impl DeepView for Module {
    type V = ModuleView;

    open spec fn deep_view(&self) -> ModuleView {
        ModuleView {
            name: self.name.deep_view(),
            documentation: self.documentation.deep_view(),
            statements: self.statements.deep_view(),
        }
    }
}

impl DeepView for BindingKind {
    type V = BindingKind;

    open spec fn deep_view(&self) -> BindingKind {
        *self
    }
}

} // verus!
