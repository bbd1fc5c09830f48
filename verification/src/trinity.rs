//! Rotation puzzles over triples. A `Trinity` holds three values and can be
//! rotated; a `Solver` discards every triple that can be rotated into the
//! expected one. Two variants share the same observable behaviour: one
//! rotates through swaps, one keeps the bounds a clone-based caller needs.

pub mod cloning;
pub mod optimized;

pub use optimized::{Solver, Trinity};
