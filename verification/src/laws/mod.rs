//! What holds of the grammar as a whole.

pub mod elsewhere;
pub mod inputs;
pub mod lists;
pub mod locations;
pub mod models;
pub mod needs;
pub mod numbers;
pub mod operators;
pub mod parts;
pub mod places;
pub mod rules;
pub mod separators;
pub mod spans;
pub mod texts;
pub mod trees;
