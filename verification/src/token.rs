//! Tokens of Gleam source code.

use vstd::prelude::*;
use vstd::string::StringExecFns;

verus! {

/// A token. Names and literals carry the text they were written with.
#[derive(Debug)]
pub enum Tok {
    /// A name that starts with a lower case letter.
    Name { name: String },
    /// A name that starts with an upper case letter.
    UpName { name: String },
    /// A name that starts with an underscore.
    DiscardName { name: String },
    /// An integer literal.
    Int { value: String },
    /// A float literal.
    Float { value: String },
    /// A string literal, without its quotes.
    String { value: String },
    // Groupings
    Lpar,
    Rpar,
    Lsqb,
    Rsqb,
    Lbrace,
    Rbrace,
    // Operators on integers
    Plus,
    Minus,
    Star,
    Slash,
    Less,
    Greater,
    LessEqual,
    GreaterEqual,
    Percent,
    // Operators on floats
    PlusDot,
    MinusDot,
    StarDot,
    SlashDot,
    LessDot,
    GreaterDot,
    LessEqualDot,
    GreaterEqualDot,
    // Other punctuation
    Colon,
    Comma,
    Equal,
    EqualEqual,
    NotEqual,
    Vbar,
    VbarVbar,
    AmperAmper,
    LtLt,
    GtGt,
    Pipe,
    Dot,
    RArrow,
    DotDot,
    ListNil,
    // Layout, gathered beside the tree
    CommentNormal,
    CommentDoc,
    CommentModule,
    EmptyLine,
    // Keywords
    As,
    Assert,
    Case,
    Const,
    External,
    Fn,
    If,
    Import,
    Let,
    Opaque,
    Pub,
    Todo,
    Try,
    Tuple,
    Type,
}

/// A token with the byte offsets at which it starts and ends.
pub type Spanned = (usize, Tok, usize);

impl PartialEq for Tok {
    fn eq(&self, other: &Self) -> (r: bool) {
        match (self, other) {
            (Tok::Name { name: a }, Tok::Name { name: b }) => *a == *b,
            (Tok::UpName { name: a }, Tok::UpName { name: b }) => *a == *b,
            (Tok::DiscardName { name: a }, Tok::DiscardName { name: b }) => *a == *b,
            (Tok::Int { value: a }, Tok::Int { value: b }) => *a == *b,
            (Tok::Float { value: a }, Tok::Float { value: b }) => *a == *b,
            (Tok::String { value: a }, Tok::String { value: b }) => *a == *b,
            (Tok::Lpar, Tok::Lpar) => true,
            (Tok::Rpar, Tok::Rpar) => true,
            (Tok::Lsqb, Tok::Lsqb) => true,
            (Tok::Rsqb, Tok::Rsqb) => true,
            (Tok::Lbrace, Tok::Lbrace) => true,
            (Tok::Rbrace, Tok::Rbrace) => true,
            (Tok::Plus, Tok::Plus) => true,
            (Tok::Minus, Tok::Minus) => true,
            (Tok::Star, Tok::Star) => true,
            (Tok::Slash, Tok::Slash) => true,
            (Tok::Less, Tok::Less) => true,
            (Tok::Greater, Tok::Greater) => true,
            (Tok::LessEqual, Tok::LessEqual) => true,
            (Tok::GreaterEqual, Tok::GreaterEqual) => true,
            (Tok::Percent, Tok::Percent) => true,
            (Tok::PlusDot, Tok::PlusDot) => true,
            (Tok::MinusDot, Tok::MinusDot) => true,
            (Tok::StarDot, Tok::StarDot) => true,
            (Tok::SlashDot, Tok::SlashDot) => true,
            (Tok::LessDot, Tok::LessDot) => true,
            (Tok::GreaterDot, Tok::GreaterDot) => true,
            (Tok::LessEqualDot, Tok::LessEqualDot) => true,
            (Tok::GreaterEqualDot, Tok::GreaterEqualDot) => true,
            (Tok::Colon, Tok::Colon) => true,
            (Tok::Comma, Tok::Comma) => true,
            (Tok::Equal, Tok::Equal) => true,
            (Tok::EqualEqual, Tok::EqualEqual) => true,
            (Tok::NotEqual, Tok::NotEqual) => true,
            (Tok::Vbar, Tok::Vbar) => true,
            (Tok::VbarVbar, Tok::VbarVbar) => true,
            (Tok::AmperAmper, Tok::AmperAmper) => true,
            (Tok::LtLt, Tok::LtLt) => true,
            (Tok::GtGt, Tok::GtGt) => true,
            (Tok::Pipe, Tok::Pipe) => true,
            (Tok::Dot, Tok::Dot) => true,
            (Tok::RArrow, Tok::RArrow) => true,
            (Tok::DotDot, Tok::DotDot) => true,
            (Tok::ListNil, Tok::ListNil) => true,
            (Tok::CommentNormal, Tok::CommentNormal) => true,
            (Tok::CommentDoc, Tok::CommentDoc) => true,
            (Tok::CommentModule, Tok::CommentModule) => true,
            (Tok::EmptyLine, Tok::EmptyLine) => true,
            (Tok::As, Tok::As) => true,
            (Tok::Assert, Tok::Assert) => true,
            (Tok::Case, Tok::Case) => true,
            (Tok::Const, Tok::Const) => true,
            (Tok::External, Tok::External) => true,
            (Tok::Fn, Tok::Fn) => true,
            (Tok::If, Tok::If) => true,
            (Tok::Import, Tok::Import) => true,
            (Tok::Let, Tok::Let) => true,
            (Tok::Opaque, Tok::Opaque) => true,
            (Tok::Pub, Tok::Pub) => true,
            (Tok::Todo, Tok::Todo) => true,
            (Tok::Try, Tok::Try) => true,
            (Tok::Tuple, Tok::Tuple) => true,
            (Tok::Type, Tok::Type) => true,
            _ => false,
        }
    }
}

impl vstd::std_specs::cmp::PartialEqSpecImpl for Tok {
    open spec fn obeys_eq_spec() -> bool {
        true
    }

    open spec fn eq_spec(&self, other: &Self) -> bool {
        same_tok(*self, *other)
    }
}

/// Whether two tokens are of one kind and, where they carry text, have the same text.
pub open spec fn same_tok(a: Tok, b: Tok) -> bool {
    match (a, b) {
        (Tok::Name { name: x }, Tok::Name { name: y }) => x@ == y@,
        (Tok::UpName { name: x }, Tok::UpName { name: y }) => x@ == y@,
        (Tok::DiscardName { name: x }, Tok::DiscardName { name: y }) => x@ == y@,
        (Tok::Int { value: x }, Tok::Int { value: y }) => x@ == y@,
        (Tok::Float { value: x }, Tok::Float { value: y }) => x@ == y@,
        (Tok::String { value: x }, Tok::String { value: y }) => x@ == y@,
        _ => a == b,
    }
}

/// The text of a token as it stands in source code.
pub open spec fn lexeme(tok: Tok) -> Seq<char> {
    match tok {
        Tok::Name { name } => name@,
        Tok::UpName { name } => name@,
        Tok::DiscardName { name } => name@,
        Tok::Int { value } => value@,
        Tok::Float { value } => value@,
        Tok::String { value } => value@,
        Tok::Lpar => "("@,
        Tok::Rpar => ")"@,
        Tok::Lsqb => "["@,
        Tok::Rsqb => "]"@,
        Tok::Lbrace => "{"@,
        Tok::Rbrace => "}"@,
        Tok::Plus => "+"@,
        Tok::Minus => "-"@,
        Tok::Star => "*"@,
        Tok::Slash => "/"@,
        Tok::Less => "<"@,
        Tok::Greater => ">"@,
        Tok::LessEqual => "<="@,
        Tok::GreaterEqual => ">="@,
        Tok::Percent => "%"@,
        Tok::PlusDot => "+."@,
        Tok::MinusDot => "-."@,
        Tok::StarDot => "*."@,
        Tok::SlashDot => "/."@,
        Tok::LessDot => "<."@,
        Tok::GreaterDot => ">."@,
        Tok::LessEqualDot => "<=."@,
        Tok::GreaterEqualDot => ">=."@,
        Tok::Colon => ":"@,
        Tok::Comma => ","@,
        Tok::Equal => "="@,
        Tok::EqualEqual => "=="@,
        Tok::NotEqual => "!="@,
        Tok::Vbar => "|"@,
        Tok::VbarVbar => "||"@,
        Tok::AmperAmper => "&&"@,
        Tok::LtLt => "<<"@,
        Tok::GtGt => ">>"@,
        Tok::Pipe => "|>"@,
        Tok::Dot => "."@,
        Tok::RArrow => "->"@,
        Tok::DotDot => ".."@,
        Tok::ListNil => "[]"@,
        Tok::CommentNormal => "//"@,
        Tok::CommentDoc => "///"@,
        Tok::CommentModule => "////"@,
        Tok::EmptyLine => "EmptyLine"@,
        Tok::As => "as"@,
        Tok::Assert => "assert"@,
        Tok::Case => "case"@,
        Tok::Const => "const"@,
        Tok::External => "external"@,
        Tok::Fn => "fn"@,
        Tok::If => "if"@,
        Tok::Import => "import"@,
        Tok::Let => "let"@,
        Tok::Opaque => "opaque"@,
        Tok::Pub => "pub"@,
        Tok::Todo => "todo"@,
        Tok::Try => "try"@,
        Tok::Tuple => "tuple"@,
        Tok::Type => "type"@,
    }
}

/// The text of a token between double quotes, as error messages show it.
pub open spec fn quoted(tok: Tok) -> Seq<char> {
    "\""@ + lexeme(tok) + "\""@
}

/// Comments and blank lines: tokens that stand beside the tree and not in it.
pub open spec fn is_layout(tok: Tok) -> bool {
    match tok {
        Tok::EmptyLine | Tok::CommentNormal | Tok::CommentDoc | Tok::CommentModule => true,
        _ => false,
    }
}

impl Tok {
    /// The text of the token as it stands in source code.
    pub fn lexeme(&self) -> (text: &str)
        ensures
            text@ == lexeme(*self),
    {
        match self {
            Tok::Name { name } => name.as_str(),
            Tok::UpName { name } => name.as_str(),
            Tok::DiscardName { name } => name.as_str(),
            Tok::Int { value } => value.as_str(),
            Tok::Float { value } => value.as_str(),
            Tok::String { value } => value.as_str(),
            Tok::Lpar => "(",
            Tok::Rpar => ")",
            Tok::Lsqb => "[",
            Tok::Rsqb => "]",
            Tok::Lbrace => "{",
            Tok::Rbrace => "}",
            Tok::Plus => "+",
            Tok::Minus => "-",
            Tok::Star => "*",
            Tok::Slash => "/",
            Tok::Less => "<",
            Tok::Greater => ">",
            Tok::LessEqual => "<=",
            Tok::GreaterEqual => ">=",
            Tok::Percent => "%",
            Tok::PlusDot => "+.",
            Tok::MinusDot => "-.",
            Tok::StarDot => "*.",
            Tok::SlashDot => "/.",
            Tok::LessDot => "<.",
            Tok::GreaterDot => ">.",
            Tok::LessEqualDot => "<=.",
            Tok::GreaterEqualDot => ">=.",
            Tok::Colon => ":",
            Tok::Comma => ",",
            Tok::Equal => "=",
            Tok::EqualEqual => "==",
            Tok::NotEqual => "!=",
            Tok::Vbar => "|",
            Tok::VbarVbar => "||",
            Tok::AmperAmper => "&&",
            Tok::LtLt => "<<",
            Tok::GtGt => ">>",
            Tok::Pipe => "|>",
            Tok::Dot => ".",
            Tok::RArrow => "->",
            Tok::DotDot => "..",
            Tok::ListNil => "[]",
            Tok::CommentNormal => "//",
            Tok::CommentDoc => "///",
            Tok::CommentModule => "////",
            Tok::EmptyLine => "EmptyLine",
            Tok::As => "as",
            Tok::Assert => "assert",
            Tok::Case => "case",
            Tok::Const => "const",
            Tok::External => "external",
            Tok::Fn => "fn",
            Tok::If => "if",
            Tok::Import => "import",
            Tok::Let => "let",
            Tok::Opaque => "opaque",
            Tok::Pub => "pub",
            Tok::Todo => "todo",
            Tok::Try => "try",
            Tok::Tuple => "tuple",
            Tok::Type => "type",
        }
    }

    /// The text of the token between double quotes, as error messages show it.
    pub fn quoted(&self) -> (text: String)
        ensures
            text@ == quoted(*self),
    {
        let mut text = "\"".to_string();
        text.append(self.lexeme());
        text.append("\"");
        text
    }
}

} // verus!
