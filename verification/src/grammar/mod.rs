//! The grammar, as functions from a place in a stream of tokens to what stands there and to the
//! place behind it.

pub mod basics;
pub mod constants;
pub mod exprs;
pub mod guards;
pub mod modules;
pub mod patterns;
pub mod segments;
pub mod statements;
pub mod types;
