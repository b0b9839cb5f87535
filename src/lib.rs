//! A lookup constraint gated by a selector: its configuration, the rows a
//! trace gets for it, and whether a trace satisfies it.

pub mod check;
pub mod circuit;
pub mod expr;
pub mod laws;
pub mod trace;
