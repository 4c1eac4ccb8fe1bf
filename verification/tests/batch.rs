use brayton::selection::{FluidChoice, ModelChoice};
use brayton::thermo::{
    default_fluid, default_model, plan_states_from_ph, plan_states_from_ps,
    reject_non_co2_perfect_gas, select_batch_model, state_failure_message, BatchProperty,
};

#[test]
fn mismatched_array_lengths_returns_error() {
    let result = plan_states_from_ph(2, 1, "PerfectGas", "CarbonDioxide");
    assert!(result.is_err());
    assert!(result.unwrap_err().contains("array length mismatch"));
}

#[test]
fn length_mismatch_message_states_both_counts() {
    assert_eq!(
        plan_states_from_ph(2, 1, "PerfectGas", "CarbonDioxide").unwrap_err(),
        "array length mismatch: 2 pressures, 1 enthalpies"
    );
    assert_eq!(
        plan_states_from_ps(0, 1234567, "CoolProp", "Helium").unwrap_err(),
        "array length mismatch: 0 pressures, 1234567 entropies"
    );
    assert_eq!(
        plan_states_from_ps(10, 9, "Bogus", "Unobtanium").unwrap_err(),
        "array length mismatch: 10 pressures, 9 entropies"
    );
}

#[test]
fn thermo_unknown_model_returns_error() {
    assert!(plan_states_from_ph(1, 1, "Bogus", "CarbonDioxide").is_err());
}

#[test]
fn thermo_unknown_fluid_returns_error() {
    let result = plan_states_from_ph(1, 1, "CoolProp", "Unobtanium");
    assert!(result.is_err());
    assert!(result.unwrap_err().contains("unknown fluid"));
}

#[test]
fn perfect_gas_rejects_non_co2() {
    let result = plan_states_from_ph(1, 1, "PerfectGas", "Helium");
    assert!(result.is_err());
    assert!(result.unwrap_err().contains("PerfectGas only supports"));
}

#[test]
fn perfect_gas_rejection_names_the_fluid() {
    assert_eq!(
        reject_non_co2_perfect_gas("Helium").unwrap_err(),
        "PerfectGas only supports CarbonDioxide, got \"Helium\""
    );
    assert_eq!(reject_non_co2_perfect_gas("CarbonDioxide"), Ok(()));
}

#[test]
fn batch_accepts_equal_lengths() {
    assert_eq!(
        plan_states_from_ph(3, 3, "PerfectGas", "CarbonDioxide"),
        Ok(ModelChoice::PerfectGasCarbonDioxide)
    );
    assert_eq!(
        plan_states_from_ps(3, 3, "CoolProp", "CarbonDioxide"),
        Ok(ModelChoice::CoolProp(FluidChoice::CarbonDioxide))
    );
    assert_eq!(plan_states_from_ph(0, 0, "CoolProp", "Butane"), Ok(ModelChoice::CoolProp(FluidChoice::Butane)));
}

#[test]
fn batch_choice_matches_facade_except_perfect_gas_fluid() {
    assert_eq!(select_batch_model("CoolProp", "Nitrogen"), Ok(ModelChoice::CoolProp(FluidChoice::Nitrogen)));
    assert_eq!(select_batch_model("Bogus", "Nitrogen").unwrap_err(), "unknown model: Bogus");
    assert!(select_batch_model("PerfectGas", "Nitrogen").is_err());
    assert!(brayton::facade::select_model("PerfectGas", "Nitrogen").is_ok());
}

#[test]
fn batch_defaults() {
    assert_eq!(default_model(), "PerfectGas");
    assert_eq!(default_fluid(), "CarbonDioxide");
}

#[test]
fn state_failure_message_names_index() {
    assert_eq!(
        state_failure_message(BatchProperty::Enthalpy, 0, "out of range"),
        "state_from(P, h) failed at index 0: out of range"
    );
    assert_eq!(
        state_failure_message(BatchProperty::Entropy, 42, "bad"),
        "state_from(P, s) failed at index 42: bad"
    );
}
