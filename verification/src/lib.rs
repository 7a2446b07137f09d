//! Token-stream transformations of a small set of procedural macros,
//! with their contracts proved by Verus.

pub mod examples;
pub mod laws;
pub mod macros;
pub mod retry;
pub mod tokens;
