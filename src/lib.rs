//! Normalizes a native syntax tree of a curly-brace systems language into a
//! small, closed, versioned canonical schema of declarations, statements and
//! expressions.
pub mod canonical;
pub mod native;
pub mod expr;
pub mod stmt;
pub mod decl;
pub mod checked;
pub mod counting;
pub mod laws;
