//! Lexical and syntax errors.

use crate::ast::SrcSpan;
use vstd::prelude::*;

verus! {

/// Why a piece of source text is no token.
#[derive(Debug, PartialEq, Eq)]
pub enum LexicalErrorType {
    BadStringEscape,
    DigitOutOfRadix,
    NumTrailingUnderscore,
    RadixIntNoValue,
    UnexpectedStringEnd,
    UnrecognizedToken { tok: char },
    BadName { name: String },
    BadDiscardName { name: String },
    BadUpname { name: String },
}

/// A place in the source text at which no token could be read.
#[derive(Debug, PartialEq, Eq)]
pub struct LexicalError {
    pub error: LexicalErrorType,
    pub location: usize,
}

/// What is wrong with a sequence of tokens.
#[derive(Debug, PartialEq, Eq)]
pub enum ParseErrorType {
    /// No expression where one is needed.
    ExpectedExpr,
    /// No name where one is needed.
    ExpectedName,
    /// No pattern after the label of an argument.
    ExpectedPattern,
    /// No type where one is needed.
    ExpectedType,
    /// No name that starts with an upper case letter where one is needed.
    ExpectedUpName,
    /// No value after the `=` of a binding.
    ExpectedValue,
    /// A `(` where an expression starts.
    ExprLparStart,
    /// A binding that no expression follows.
    ExprTailBinding,
    /// A separator that directly follows another one.
    ExtraSeparator,
    /// A name that does not start with a lower case letter where one is needed.
    IncorrectName,
    /// A name that does not start with an upper case letter where one is needed.
    IncorrectUpName,
    /// An unknown option of a bit string segment.
    InvalidBitStringSegment,
    /// A list pattern whose tail is neither a variable nor a discard.
    InvalidTailPattern,
    /// A tuple index that is no 64 bit number.
    InvalidTupleAccess,
    /// Source text that is no token.
    LexError { error: LexicalError },
    /// `[]` as a constant.
    ListNilNotAllowed,
    /// A `case` without clauses.
    NoCaseClause,
    /// A custom type without constructors, or a type with neither constructors nor an alias.
    NoConstructors,
    /// `{}` as an expression.
    NoExpression,
    /// No constant after the `=` of a module constant.
    NoValueAfterEqual,
    /// Something that no constant can hold.
    NotConstType,
    /// An operator without a right operand.
    OpNakedRight,
    /// An opaque type alias.
    OpaqueTypeAlias,
    /// A call with more than one `_` argument.
    TooManyArgHoles,
    /// The tokens end too early.
    UnexpectedEOF,
    /// A keyword where a name is needed.
    UnexpectedReservedWord,
    /// A token other than those expected.
    UnexpectedToken { expected: Vec<String> },
}

/// A syntax error and the place that it concerns.
#[derive(Debug, PartialEq, Eq)]
pub struct ParseError {
    pub error: ParseErrorType,
    pub location: SrcSpan,
}

/// The model of a [`ParseErrorType`]: the list of what was expected is a sequence of texts, every
/// other error stands for itself.
#[verifier::ext_equal]
pub enum Fault {
    Expected(Seq<Seq<char>>),
    Plain(ParseErrorType),
}

/// The model of a [`ParseError`].
#[verifier::ext_equal]
pub struct ErrorView {
    pub fault: Fault,
    pub location: SrcSpan,
}

impl DeepView for ParseErrorType {
    type V = Fault;

    open spec fn deep_view(&self) -> Fault {
        match *self {
            ParseErrorType::UnexpectedToken { expected } => Fault::Expected(expected.deep_view()),
            other => Fault::Plain(other),
        }
    }
}

impl DeepView for ParseError {
    type V = ErrorView;

    open spec fn deep_view(&self) -> ErrorView {
        ErrorView { fault: self.error.deep_view(), location: self.location }
    }
}

/// The model of a result: the model of the value or that of the error.
pub open spec fn outcome<A: DeepView>(result: Result<A, ParseError>) -> Result<A::V, ErrorView> {
    match result {
        Ok(value) => Ok(value.deep_view()),
        Err(error) => Err(error.deep_view()),
    }
}

/// Fails with the given error at the given place.
pub fn parse_error<T: DeepView>(error: ParseErrorType, location: SrcSpan) -> (result: Result<
    T,
    ParseError,
>)
    ensures
        outcome(result) == Err::<T::V, ErrorView>(
            (ErrorView { fault: error.deep_view(), location }),
        ),
{
    Err(ParseError { error, location })
}

} // verus!
