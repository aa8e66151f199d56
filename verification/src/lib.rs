//! Generation of restricted scalar wrapper types: the rules of a wrapper are
//! checked, its capabilities resolved, and the pieces of the emitted artifact
//! assembled as plain data.

pub mod models;
pub mod text;
pub mod validate;
pub mod traits;
pub mod gen;
pub mod construct;
pub mod tokens;
pub mod parse;
pub mod numbers;
pub mod generate;
