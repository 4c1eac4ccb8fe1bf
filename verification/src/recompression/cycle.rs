//! Nested bisection of the recompression cycle: the errors of its inner and
//! outer models and how the solver reacts to them.
//!
//! The outer bisection runs on T8 (HT recuperator hot outlet) and the inner
//! one on T9 (LT recuperator hot outlet). A step at which a recuperator
//! model reports a second-law violation lies beyond the root, and is taken
//! to have a positive residual; any other failure ends the bisection.

use vstd::prelude::*;

use crate::observer::{SolverAction, SolverEvent};
use crate::text::{concat2, concat3};

verus! {

/// Error of the inner model (one evaluation at a given T9).
#[derive(Debug, Clone)]
pub enum InnerError {
    /// The LT recuperator would have to violate the second law.
    SecondLawViolation,
    /// Any other failure, with its description.
    Other(String),
}

/// Error of the outer model (one evaluation at a given T8).
#[derive(Debug, Clone)]
pub enum OuterError {
    /// The HT recuperator would have to violate the second law.
    SecondLawViolation,
    /// Any other failure, with its description.
    Other(String),
}

/// Text that describes an inner or outer error.
pub open spec fn error_text(second_law_violation: bool, other: Seq<char>) -> Seq<char> {
    if second_law_violation {
        "second law violation"@
    } else {
        other
    }
}

impl InnerError {
    /// Whether the error is a second-law violation.
    pub fn is_second_law_violation(&self) -> (res: bool)
        ensures
            res == (*self is SecondLawViolation),
    {
        matches!(self, InnerError::SecondLawViolation)
    }

    /// The inner error for a failure of the LT recuperator model:
    /// second-law violations are kept apart, any other failure is
    /// described with the `LT recuperator` prefix.
    pub fn from_lt_recuperator(second_law_violation: bool, detail: &str) -> (res: InnerError)
        ensures
            second_law_violation ==> res is SecondLawViolation,
            !second_law_violation ==> (res matches InnerError::Other(s) && s@ == "LT recuperator: "@
                + detail@),
    {
        if second_law_violation {
            InnerError::SecondLawViolation
        } else {
            InnerError::Other(concat2("LT recuperator: ", detail))
        }
    }

    /// The text that describes the error.
    pub fn message(&self) -> (res: String)
        ensures
            res@ == (match self {
                InnerError::SecondLawViolation => error_text(true, Seq::empty()),
                InnerError::Other(s) => error_text(false, s@),
            }),
    {
        match self {
            InnerError::SecondLawViolation => String::from_str("second law violation"),
            InnerError::Other(s) => s.clone(),
        }
    }
}

impl OuterError {
    /// Whether the error is a second-law violation.
    pub fn is_second_law_violation(&self) -> (res: bool)
        ensures
            res == (*self is SecondLawViolation),
    {
        matches!(self, OuterError::SecondLawViolation)
    }

    /// The outer error for a failure of the HT recuperator model:
    /// second-law violations are kept apart, any other failure is
    /// described with the `HT recuperator` prefix.
    pub fn from_ht_recuperator(second_law_violation: bool, detail: &str) -> (res: OuterError)
        ensures
            second_law_violation ==> res is SecondLawViolation,
            !second_law_violation ==> (res matches OuterError::Other(s) && s@ == "HT recuperator: "@
                + detail@),
    {
        if second_law_violation {
            OuterError::SecondLawViolation
        } else {
            OuterError::Other(concat2("HT recuperator: ", detail))
        }
    }

    /// The text that describes the error.
    pub fn message(&self) -> (res: String)
        ensures
            res@ == (match self {
                OuterError::SecondLawViolation => error_text(true, Seq::empty()),
                OuterError::Other(s) => error_text(false, s@),
            }),
    {
        match self {
            OuterError::SecondLawViolation => String::from_str("second law violation"),
            OuterError::Other(s) => s.clone(),
        }
    }
}

/// How both bisections of the cycle react to an event: a model failure
/// that is a second-law violation is taken as a positive residual; every
/// other event is left to the solver.
pub fn ua_observer(event: &SolverEvent) -> (res: Option<SolverAction>)
    ensures
        res == (match *event {
            SolverEvent::ModelFailed { second_law_violation: true } => Some(
                SolverAction::AssumePositive,
            ),
            _ => None,
        }),
{
    match event {
        SolverEvent::ModelFailed { second_law_violation } => {
            if *second_law_violation {
                Some(SolverAction::AssumePositive)
            } else {
                None
            }
        },
        _ => None,
    }
}

/// The first failure of the recompression solver's input checks.
#[derive(Debug, Clone, Copy, PartialEq, Eq, Structural)]
pub enum InputError {
    /// The recompression fraction is outside `0 ≤ f < 1`.
    InvalidRecompressionFraction,
    /// The net power is not positive.
    NonPositiveNetPower,
    /// The compressor pressure rise does not cover the cycle's pressure drops.
    InsufficientPressureRise,
}

/// Orders the solver's input checks: the recompression fraction first, then
/// the net power, then the pressure rise; the first that fails is reported.
pub fn first_input_error(
    fraction_in_range: bool,
    net_power_positive: bool,
    pressure_rise_sufficient: bool,
) -> (res: Option<InputError>)
    ensures
        res == (if !fraction_in_range {
            Some(InputError::InvalidRecompressionFraction)
        } else if !net_power_positive {
            Some(InputError::NonPositiveNetPower)
        } else if !pressure_rise_sufficient {
            Some(InputError::InsufficientPressureRise)
        } else {
            None
        }),
{
    if !fraction_in_range {
        Some(InputError::InvalidRecompressionFraction)
    } else if !net_power_positive {
        Some(InputError::NonPositiveNetPower)
    } else if !pressure_rise_sufficient {
        Some(InputError::InsufficientPressureRise)
    } else {
        None
    }
}

/// A step of the inner model that can fail.
#[derive(Debug, Clone, Copy, PartialEq, Eq, Structural)]
pub enum InnerStep {
    /// Building state 9 from (T9, P9).
    StateS9,
    /// The recompressor, s9 → s10.
    Recompressor,
    /// Building state 8 from (T8, P8).
    StateS8,
    /// The enthalpy of state 3.
    EnthalpyS3,
    /// The enthalpy of state 10.
    EnthalpyS10,
    /// Building state 4 from (P4, h4).
    StateS4,
}

/// The label by which errors name an inner step.
pub open spec fn inner_step_label(step: InnerStep) -> Seq<char> {
    match step {
        InnerStep::StateS9 => "state_from(s9)"@,
        InnerStep::Recompressor => "recompressor"@,
        InnerStep::StateS8 => "state_from(s8)"@,
        InnerStep::EnthalpyS3 => "enthalpy(s3)"@,
        InnerStep::EnthalpyS10 => "enthalpy(s10)"@,
        InnerStep::StateS4 => "state_from(s4)"@,
    }
}

fn inner_step_name(step: InnerStep) -> (res: &'static str)
    ensures
        res@ == inner_step_label(step),
{
    match step {
        InnerStep::StateS9 => "state_from(s9)",
        InnerStep::Recompressor => "recompressor",
        InnerStep::StateS8 => "state_from(s8)",
        InnerStep::EnthalpyS3 => "enthalpy(s3)",
        InnerStep::EnthalpyS10 => "enthalpy(s10)",
        InnerStep::StateS4 => "state_from(s4)",
    }
}

impl InnerError {
    /// The inner error for a failed step, described by the step and the
    /// failure.
    pub fn at_step(step: InnerStep, detail: &str) -> (res: InnerError)
        ensures
            res matches InnerError::Other(s) && s@ == inner_step_label(step) + ": "@ + detail@,
    {
        InnerError::Other(concat3(inner_step_name(step), ": ", detail))
    }

    /// The inner error for a recompression fraction whose net specific work
    /// is not positive.
    pub fn insufficient_net_work() -> (res: InnerError)
        ensures
            res matches InnerError::Other(s) && s@ == "insufficient net work"@,
    {
        InnerError::Other(String::from_str("insufficient net work"))
    }
}

impl OuterError {
    /// The outer error for an inner bracket that could not be formed.
    pub fn inner_bracket(detail: &str) -> (res: OuterError)
        ensures
            res matches OuterError::Other(s) && s@ == "inner bracket: "@ + detail@,
    {
        OuterError::Other(concat2("inner bracket: ", detail))
    }

    /// The outer error for an inner bisection that failed.
    pub fn inner_bisection(detail: &str) -> (res: OuterError)
        ensures
            res matches OuterError::Other(s) && s@ == "inner bisection: "@ + detail@,
    {
        OuterError::Other(concat2("inner bisection: ", detail))
    }
}

/// How the outer bisection can fail before it yields a solution.
#[derive(Debug, Clone, Copy, PartialEq, Eq, Structural)]
pub enum OuterSolverFailure {
    /// The outer bracket could not be formed.
    InvalidBracket,
    /// The outer bisection failed.
    BisectionFailed,
}

/// Text of the HT recuperator error for a failure of the outer bisection.
pub open spec fn outer_failure_text(failure: OuterSolverFailure, detail: Seq<char>) -> Seq<char> {
    match failure {
        OuterSolverFailure::InvalidBracket => "invalid bracket: "@ + detail,
        OuterSolverFailure::BisectionFailed => "bisection failed: "@ + detail,
    }
}

/// Text of the HT recuperator error for a failure of the outer bisection.
pub fn outer_failure_message(failure: OuterSolverFailure, detail: &str) -> (res: String)
    ensures
        res@ == outer_failure_text(failure, detail@),
{
    match failure {
        OuterSolverFailure::InvalidBracket => concat2("invalid bracket: ", detail),
        OuterSolverFailure::BisectionFailed => concat2("bisection failed: ", detail),
    }
}

} // verus!
