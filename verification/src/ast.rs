//! The syntax tree of a Gleam module before type inference.
//!
//! Fields of type `()` are those that type inference would fill.

use vstd::prelude::*;

verus! {

/// The name of the argument of the function that a call with a `_` argument stands for.
pub const CAPTURE_VARIABLE: &'static str = "_capture";

/// A stretch of the source text, from one byte offset up to another.
#[derive(Debug, Clone, Copy, PartialEq, Eq, Structural)]
pub struct SrcSpan {
    pub start: usize,
    pub end: usize,
}

/// A module.
#[derive(Debug, PartialEq)]
pub struct Module {
    pub name: Vec<String>,
    pub documentation: Vec<String>,
    pub type_info: (),
    pub statements: Vec<Statement>,
}

/// A definition at the top level of a module.
#[derive(Debug, PartialEq)]
pub enum Statement {
    Fn {
        location: SrcSpan,
        end_location: usize,
        name: String,
        args: Vec<Arg>,
        body: UntypedExpr,
        public: bool,
        return_annotation: Option<TypeAst>,
        return_type: (),
        doc: Option<String>,
    },
    TypeAlias {
        location: SrcSpan,
        alias: String,
        args: Vec<String>,
        resolved_type: TypeAst,
        public: bool,
        typ: (),
        doc: Option<String>,
    },
    CustomType {
        location: SrcSpan,
        name: String,
        parameters: Vec<String>,
        public: bool,
        constructors: Vec<RecordConstructor>,
        doc: Option<String>,
        opaque: bool,
        typed_parameters: Vec<()>,
    },
    ExternalFn {
        location: SrcSpan,
        public: bool,
        args: Vec<ExternalFnArg>,
        name: String,
        retrn: TypeAst,
        return_type: (),
        module: String,
        fun: String,
        doc: Option<String>,
    },
    ExternalType {
        location: SrcSpan,
        public: bool,
        name: String,
        args: Vec<String>,
        doc: Option<String>,
    },
    Import {
        location: SrcSpan,
        module: Vec<String>,
        as_name: Option<String>,
        unqualified: Vec<UnqualifiedImport>,
    },
    ModuleConstant {
        doc: Option<String>,
        location: SrcSpan,
        public: bool,
        name: String,
        annotation: Option<TypeAst>,
        value: Box<Constant>,
        typ: (),
    },
}

/// A name that an import brings into scope without its module.
#[derive(Debug, PartialEq)]
pub struct UnqualifiedImport {
    pub location: SrcSpan,
    pub name: String,
    pub as_name: Option<String>,
}

/// A constructor of a custom type.
#[derive(Debug, PartialEq)]
pub struct RecordConstructor {
    pub location: SrcSpan,
    pub name: String,
    pub args: Vec<RecordConstructorArg>,
    pub documentation: Option<String>,
}

/// An argument of a constructor of a custom type.
#[derive(Debug, PartialEq)]
pub struct RecordConstructorArg {
    pub label: Option<String>,
    pub ast: TypeAst,
    pub location: SrcSpan,
    pub typ: (),
}

/// A parameter of an external function.
#[derive(Debug, PartialEq)]
pub struct ExternalFnArg {
    pub location: SrcSpan,
    pub label: Option<String>,
    pub annotation: TypeAst,
    pub typ: (),
}

/// A parameter of a function.
#[derive(Debug, PartialEq)]
pub struct Arg {
    pub names: ArgNames,
    pub location: SrcSpan,
    pub annotation: Option<TypeAst>,
    pub typ: (),
}

/// The names of a parameter: that used inside the function, and its label.
#[derive(Debug, PartialEq)]
pub enum ArgNames {
    Discard { name: String },
    LabelledDiscard { label: String, name: String },
    Named { name: String },
    NamedLabelled { name: String, label: String },
}

/// A type as it is written.
#[derive(Debug, PartialEq)]
pub enum TypeAst {
    Constructor { location: SrcSpan, module: Option<String>, name: String, args: Vec<TypeAst> },
    Fn { location: SrcSpan, args: Vec<TypeAst>, retrn: Box<TypeAst> },
    Var { location: SrcSpan, name: String },
    Tuple { location: SrcSpan, elems: Vec<TypeAst> },
    Hole { location: SrcSpan, name: String },
}

/// An argument of a call, of a constructor pattern or of a constant record.
#[derive(Debug, PartialEq)]
pub struct CallArg<A> {
    pub label: Option<String>,
    pub location: SrcSpan,
    pub value: A,
}

/// An argument of a record update.
#[derive(Debug, PartialEq)]
pub struct UntypedRecordUpdateArg {
    pub label: String,
    pub location: SrcSpan,
    pub value: UntypedExpr,
}

/// The record that a record update starts from.
#[derive(Debug, PartialEq)]
pub struct RecordUpdateSpread {
    pub name: String,
    pub location: SrcSpan,
}

/// A segment of a bit string.
#[derive(Debug, PartialEq)]
pub struct BitStringSegment<A> {
    pub location: SrcSpan,
    pub value: Box<A>,
    pub options: Vec<BitStringSegmentOption<A>>,
    pub typ: (),
}

/// An option of a segment of a bit string.
#[derive(Debug, PartialEq)]
pub enum BitStringSegmentOption<A> {
    Binary { location: SrcSpan },
    Integer { location: SrcSpan },
    Float { location: SrcSpan },
    BitString { location: SrcSpan },
    UTF8 { location: SrcSpan },
    UTF16 { location: SrcSpan },
    UTF32 { location: SrcSpan },
    UTF8Codepoint { location: SrcSpan },
    UTF16Codepoint { location: SrcSpan },
    UTF32Codepoint { location: SrcSpan },
    Signed { location: SrcSpan },
    Unsigned { location: SrcSpan },
    Big { location: SrcSpan },
    Little { location: SrcSpan },
    Native { location: SrcSpan },
    Size { location: SrcSpan, value: Box<A>, short_form: bool },
    Unit { location: SrcSpan, value: Box<A>, short_form: bool },
}

/// A pattern: the left side of a binding or of a case clause.
#[derive(Debug, PartialEq)]
pub enum Pattern {
    Int { location: SrcSpan, value: String },
    Float { location: SrcSpan, value: String },
    String { location: SrcSpan, value: String },
    Var { location: SrcSpan, name: String },
    VarCall { location: SrcSpan, name: String, typ: () },
    Let { name: String, pattern: Box<Pattern> },
    Discard { name: String, location: SrcSpan },
    Nil { location: SrcSpan },
    Cons { location: SrcSpan, head: Box<Pattern>, tail: Box<Pattern> },
    Constructor {
        location: SrcSpan,
        name: String,
        args: Vec<CallArg<Pattern>>,
        module: Option<String>,
        constructor: (),
        with_spread: bool,
    },
    Tuple { location: SrcSpan, elems: Vec<Pattern> },
    BitString { location: SrcSpan, segments: Vec<BitStringSegment<Pattern>> },
}

/// A constant expression.
#[derive(Debug, PartialEq)]
pub enum Constant {
    Int { location: SrcSpan, value: String },
    Float { location: SrcSpan, value: String },
    String { location: SrcSpan, value: String },
    Tuple { location: SrcSpan, elements: Vec<Constant> },
    List { location: SrcSpan, elements: Vec<Constant>, typ: () },
    Record {
        location: SrcSpan,
        module: Option<String>,
        name: String,
        args: Vec<CallArg<Constant>>,
        tag: (),
        typ: (),
    },
    BitString { location: SrcSpan, segments: Vec<BitStringSegment<Constant>> },
}

/// The guard of a case clause.
#[derive(Debug, PartialEq)]
pub enum ClauseGuard {
    Equals { location: SrcSpan, left: Box<ClauseGuard>, right: Box<ClauseGuard> },
    NotEquals { location: SrcSpan, left: Box<ClauseGuard>, right: Box<ClauseGuard> },
    GtInt { location: SrcSpan, left: Box<ClauseGuard>, right: Box<ClauseGuard> },
    GtEqInt { location: SrcSpan, left: Box<ClauseGuard>, right: Box<ClauseGuard> },
    LtInt { location: SrcSpan, left: Box<ClauseGuard>, right: Box<ClauseGuard> },
    LtEqInt { location: SrcSpan, left: Box<ClauseGuard>, right: Box<ClauseGuard> },
    GtFloat { location: SrcSpan, left: Box<ClauseGuard>, right: Box<ClauseGuard> },
    GtEqFloat { location: SrcSpan, left: Box<ClauseGuard>, right: Box<ClauseGuard> },
    LtFloat { location: SrcSpan, left: Box<ClauseGuard>, right: Box<ClauseGuard> },
    LtEqFloat { location: SrcSpan, left: Box<ClauseGuard>, right: Box<ClauseGuard> },
    Or { location: SrcSpan, left: Box<ClauseGuard>, right: Box<ClauseGuard> },
    And { location: SrcSpan, left: Box<ClauseGuard>, right: Box<ClauseGuard> },
    Var { location: SrcSpan, typ: (), name: String },
    TupleIndex { location: SrcSpan, index: u64, typ: (), tuple: Box<ClauseGuard> },
    Constant(Constant),
}

/// A clause of a case expression.
#[derive(Debug, PartialEq)]
pub struct Clause {
    pub location: SrcSpan,
    pub pattern: Vec<Pattern>,
    pub alternative_patterns: Vec<Vec<Pattern>>,
    pub guard: Option<ClauseGuard>,
    pub then: UntypedExpr,
}

/// The keyword that starts a binding.
#[derive(Debug, Clone, Copy, PartialEq, Eq, Structural)]
pub enum BindingKind {
    Let,
    Assert,
    Try,
}

/// A binary operator.
#[derive(Debug, Clone, Copy, PartialEq, Eq, Structural)]
pub enum BinOp {
    // Boolean logic
    And,
    Or,
    // Equality
    Eq,
    NotEq,
    // Order
    LtInt,
    LtEqInt,
    LtFloat,
    LtEqFloat,
    GtEqInt,
    GtInt,
    GtEqFloat,
    GtFloat,
    // Arithmetic
    AddInt,
    AddFloat,
    SubInt,
    SubFloat,
    MultInt,
    MultFloat,
    DivInt,
    DivFloat,
    ModuloInt,
}

/// An expression.
#[derive(Debug, PartialEq)]
pub enum UntypedExpr {
    Int { location: SrcSpan, value: String },
    Float { location: SrcSpan, value: String },
    String { location: SrcSpan, value: String },
    Sequence { first: Box<UntypedExpr>, then: Box<UntypedExpr> },
    Var { location: SrcSpan, name: String },
    Fn {
        location: SrcSpan,
        is_capture: bool,
        args: Vec<Arg>,
        body: Box<UntypedExpr>,
        return_annotation: Option<TypeAst>,
    },
    ListNil { location: SrcSpan },
    ListCons { location: SrcSpan, head: Box<UntypedExpr>, tail: Box<UntypedExpr> },
    Call { location: SrcSpan, fun: Box<UntypedExpr>, args: Vec<CallArg<UntypedExpr>> },
    BinOp { location: SrcSpan, name: BinOp, left: Box<UntypedExpr>, right: Box<UntypedExpr> },
    Pipe { location: SrcSpan, left: Box<UntypedExpr>, right: Box<UntypedExpr> },
    Let {
        location: SrcSpan,
        value: Box<UntypedExpr>,
        pattern: Pattern,
        then: Box<UntypedExpr>,
        kind: BindingKind,
        annotation: Option<TypeAst>,
    },
    Case { location: SrcSpan, subjects: Vec<UntypedExpr>, clauses: Vec<Clause> },
    FieldAccess { location: SrcSpan, label: String, container: Box<UntypedExpr> },
    Tuple { location: SrcSpan, elems: Vec<UntypedExpr> },
    TupleIndex { location: SrcSpan, index: u64, tuple: Box<UntypedExpr> },
    Todo { location: SrcSpan, label: Option<String> },
    BitString { location: SrcSpan, segments: Vec<BitStringSegment<UntypedExpr>> },
    RecordUpdate {
        location: SrcSpan,
        constructor: Box<UntypedExpr>,
        spread: RecordUpdateSpread,
        args: Vec<UntypedRecordUpdateArg>,
    },
}

} // verus!
