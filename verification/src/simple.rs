//! The simple recuperated Brayton cycle.

pub use crate::solution::CycleStates;
