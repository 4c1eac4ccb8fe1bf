//! The recompression Brayton cycle.

pub mod cycle;
pub mod solution;

pub use solution::CycleStates;
