use brayton::effectiveness::pinch_observer;
use brayton::observer::{SolverAction, SolverEvent};
use brayton::recompression::cycle::{
    first_input_error, outer_failure_message, ua_observer, InnerError, InnerStep, InputError,
    OuterError, OuterSolverFailure,
};

#[test]
fn pinch_observer_assumes_positive_on_any_failure() {
    assert_eq!(pinch_observer(&SolverEvent::Evaluated), None);
    assert_eq!(
        pinch_observer(&SolverEvent::ModelFailed { second_law_violation: false }),
        Some(SolverAction::AssumePositive)
    );
    assert_eq!(
        pinch_observer(&SolverEvent::ModelFailed { second_law_violation: true }),
        Some(SolverAction::AssumePositive)
    );
    assert_eq!(pinch_observer(&SolverEvent::ProblemFailed), Some(SolverAction::AssumePositive));
}

#[test]
fn ua_observer_acts_only_on_second_law_violations() {
    assert_eq!(
        ua_observer(&SolverEvent::ModelFailed { second_law_violation: true }),
        Some(SolverAction::AssumePositive)
    );
    assert_eq!(ua_observer(&SolverEvent::ModelFailed { second_law_violation: false }), None);
    assert_eq!(ua_observer(&SolverEvent::Evaluated), None);
    assert_eq!(ua_observer(&SolverEvent::ProblemFailed), None);
}

#[test]
fn recuperator_failures_map_to_model_errors() {
    let e = InnerError::from_lt_recuperator(true, "ignored");
    assert!(e.is_second_law_violation());
    assert_eq!(e.message(), "second law violation");

    let e = InnerError::from_lt_recuperator(false, "did not converge");
    assert!(!e.is_second_law_violation());
    assert_eq!(e.message(), "LT recuperator: did not converge");

    let e = OuterError::from_ht_recuperator(true, "ignored");
    assert!(e.is_second_law_violation());

    let e = OuterError::from_ht_recuperator(false, "did not converge");
    assert!(!e.is_second_law_violation());
    assert_eq!(e.message(), "HT recuperator: did not converge");
}

#[test]
fn failure_of_recuperator_reaches_observer_as_event() {
    for slv in [true, false] {
        let e = InnerError::from_lt_recuperator(slv, "x");
        let event = SolverEvent::ModelFailed { second_law_violation: e.is_second_law_violation() };
        assert_eq!(ua_observer(&event).is_some(), slv);
    }
}

#[test]
fn other_errors_keep_their_text() {
    assert_eq!(InnerError::Other(String::from("insufficient net work")).message(), "insufficient net work");
    assert!(!OuterError::Other(String::from("inner bisection: x")).is_second_law_violation());
}

#[test]
fn input_checks_report_in_order() {
    assert_eq!(first_input_error(false, false, false), Some(InputError::InvalidRecompressionFraction));
    assert_eq!(first_input_error(true, false, false), Some(InputError::NonPositiveNetPower));
    assert_eq!(first_input_error(true, true, false), Some(InputError::InsufficientPressureRise));
    assert_eq!(first_input_error(true, true, true), None);
}

#[test]
fn inner_step_errors_name_the_step() {
    assert_eq!(InnerError::at_step(InnerStep::StateS9, "e").message(), "state_from(s9): e");
    assert_eq!(InnerError::at_step(InnerStep::Recompressor, "e").message(), "recompressor: e");
    assert_eq!(InnerError::at_step(InnerStep::StateS8, "e").message(), "state_from(s8): e");
    assert_eq!(InnerError::at_step(InnerStep::EnthalpyS3, "e").message(), "enthalpy(s3): e");
    assert_eq!(InnerError::at_step(InnerStep::EnthalpyS10, "e").message(), "enthalpy(s10): e");
    assert_eq!(InnerError::at_step(InnerStep::StateS4, "e").message(), "state_from(s4): e");
    assert_eq!(InnerError::insufficient_net_work().message(), "insufficient net work");
    assert!(!InnerError::insufficient_net_work().is_second_law_violation());
}

#[test]
fn outer_errors_name_the_failure() {
    assert_eq!(OuterError::inner_bracket("e").message(), "inner bracket: e");
    assert_eq!(OuterError::inner_bisection("e").message(), "inner bisection: e");
    assert_eq!(outer_failure_message(OuterSolverFailure::InvalidBracket, "e"), "invalid bracket: e");
    assert_eq!(outer_failure_message(OuterSolverFailure::BisectionFailed, "e"), "bisection failed: e");
}
