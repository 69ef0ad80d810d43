//! A parser for Gleam modules.
//!
//! It takes the tokens of a source file, as a lexer yields them, and makes of them a syntax tree
//! before type inference, together with the comments and blank lines that the tree does not hold.
//! What the tree is for which tokens, and which tokens are answered with which error, is stated in
//! [`grammar`] over mathematical models of tokens and trees; the parser is proved to do just that.

pub mod ast;
pub mod call;
pub mod error;
pub mod extra;
pub mod grammar;
pub mod laws;
pub mod location;
pub mod model;
pub mod number;
pub mod operator;
pub mod parser;
pub mod precedence;
pub mod stream;
pub mod token;

pub use call::{make_call, ParserArg};
pub use parser::{parse_expression_sequence, parse_module, Parser};
