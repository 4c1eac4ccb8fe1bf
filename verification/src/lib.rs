//! Decision logic and naming rules of the Brayton cycle design-point solvers.
//!
//! The thermodynamic computations themselves work on floating-point
//! quantities and are carried out by the application layer; this crate holds
//! the parts that decide what is computed and how failures are reported.

pub mod text;
pub mod fluids;
pub mod selection;
pub mod facade;
pub mod thermo;
pub mod simple;
mod solution;
pub mod effectiveness;
pub mod observer;
pub mod recompression;
pub mod emscripten;
