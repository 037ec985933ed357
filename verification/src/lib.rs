//! Front end of a compiler for a small functional language for real-time
//! signal processing: a simply-typed lambda calculus with modal operators
//! for guarded recursion over time.
//!
//! The crate holds the abstract syntax tree with its modal types and clocks,
//! the bidirectional check/synthesize type checker with a time-indexed
//! context, the subtyping judgement over clock-indexed modal types, and the
//! closure-converting translation to a closed, de-Bruijn-indexed
//! intermediate representation.

pub mod clock;
pub mod expr;
pub mod list;
pub mod ir1;
pub mod ir2;
pub mod laws;
pub mod subtyping;
pub mod typing;
