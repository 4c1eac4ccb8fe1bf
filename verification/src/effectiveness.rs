//! Recuperator effectiveness via pinch-point analysis.
//!
//! The pinch-point limit is found by bisection on the cold-side outlet
//! temperature. Near the hot inlet temperature the recuperator model may
//! fail for real-gas fluids (a second-law violation); such steps are taken
//! to lie beyond the limit.

use vstd::prelude::*;

use crate::observer::{SolverAction, SolverEvent};

verus! {

/// How the pinch-point bisection reacts to an event: any failure, of the
/// model or of the problem, is taken as a positive residual (the outlet
/// temperature is too high); evaluated steps need no intervention.
pub fn pinch_observer(event: &SolverEvent) -> (res: Option<SolverAction>)
    ensures
        res == (match *event {
            SolverEvent::Evaluated => None,
            _ => Some(SolverAction::AssumePositive),
        }),
{
    match event {
        SolverEvent::Evaluated => None,
        SolverEvent::ModelFailed { .. } => Some(SolverAction::AssumePositive),
        SolverEvent::ProblemFailed => Some(SolverAction::AssumePositive),
    }
}

} // verus!
