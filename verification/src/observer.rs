//! Events that a bisection solver reports while it iterates, and the action
//! an observer may ask of it in return.

use vstd::prelude::*;

verus! {

/// What happened at one step of a bisection.
#[derive(Debug, Clone, Copy, PartialEq, Eq, Structural)]
pub enum SolverEvent {
    /// The model and the problem were evaluated at the step.
    Evaluated,
    /// The model failed; `second_law_violation` tells whether the failure
    /// was a second-law violation.
    ModelFailed { second_law_violation: bool },
    /// The problem (residual computation) failed.
    ProblemFailed,
}

/// What an observer asks the bisection to do instead of failing.
#[derive(Debug, Clone, Copy, PartialEq, Eq, Structural)]
pub enum SolverAction {
    /// Treat the residual at this step as positive.
    AssumePositive,
}

} // verus!
