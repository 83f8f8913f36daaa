//! Lattice basis reduction: a rectangular matrix container with verified row
//! operations, and the index bookkeeping of the Lenstra–Lenstra–Lovász loop.
pub mod error;
pub mod matrix;
pub mod schedule;
