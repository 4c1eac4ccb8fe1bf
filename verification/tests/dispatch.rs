use brayton::facade::{
    default_fluid, plan_design_point, select_model, validate_fields, FieldCheck,
};
use brayton::facade::recomp::{plan_design_point as recomp_plan, RecompFieldProblems};
use brayton::facade::simple::{plan_design_point as simple_plan, SimpleFieldProblems};
use brayton::fluids::{Butane, Helium, Nitrogen};
use brayton::selection::{choose_coolprop, FluidChoice, ModelChoice};

fn accepted(name: &str) -> FieldCheck {
    FieldCheck { name: String::from(name), problem: None }
}

fn rejected(name: &str, why: &str) -> FieldCheck {
    FieldCheck { name: String::from(name), problem: Some(String::from(why)) }
}

fn simple_accepted() -> SimpleFieldProblems {
    SimpleFieldProblems {
        compressor_efficiency: None,
        turbine_efficiency: None,
        recuperator_dp_cold_fraction: None,
        recuperator_dp_hot_fraction: None,
        precooler_dp_fraction: None,
        primary_hx_dp_fraction: None,
    }
}

fn recomp_accepted() -> RecompFieldProblems {
    RecompFieldProblems {
        recomp_frac: None,
        mc_efficiency: None,
        rc_efficiency: None,
        turbine_efficiency: None,
        lt_recuperator_dp_cold_fraction: None,
        lt_recuperator_dp_hot_fraction: None,
        ht_recuperator_dp_cold_fraction: None,
        ht_recuperator_dp_hot_fraction: None,
        precooler_dp_fraction: None,
        primary_hx_dp_fraction: None,
    }
}

#[test]
fn simple_unknown_fluid_returns_error() {
    let result = simple_plan(simple_accepted(), "CoolProp", "Unobtanium");
    assert!(result.is_err());
    assert!(result.unwrap_err().contains("unknown fluid"));
}

#[test]
fn simple_unknown_model_returns_error() {
    let result = simple_plan(simple_accepted(), "Bogus", "CarbonDioxide");
    assert!(result.is_err());
    assert!(result.unwrap_err().contains("unknown model"));
}

#[test]
fn recomp_unknown_fluid_returns_error() {
    let result = recomp_plan(recomp_accepted(), "CoolProp", "Unobtanium");
    assert!(result.is_err());
    assert!(result.unwrap_err().contains("unknown fluid"));
}

#[test]
fn unknown_names_are_quoted_in_errors() {
    assert_eq!(select_model("Bogus", "Helium").unwrap_err(), "unknown model: Bogus");
    assert_eq!(select_model("CoolProp", "Xenon").unwrap_err(), "unknown fluid: Xenon");
    assert_eq!(choose_coolprop("").unwrap_err(), "unknown fluid: ");
}

#[test]
fn perfect_gas_design_point_ignores_fluid() {
    for fluid in ["CarbonDioxide", "Helium", "Unobtanium", ""] {
        assert_eq!(select_model("PerfectGas", fluid), Ok(ModelChoice::PerfectGasCarbonDioxide));
    }
}

#[test]
fn coolprop_dispatches_each_fluid() {
    assert_eq!(
        select_model("CoolProp", "CarbonDioxide"),
        Ok(ModelChoice::CoolProp(FluidChoice::CarbonDioxide))
    );
    assert_eq!(select_model("CoolProp", "Nitrogen"), Ok(ModelChoice::CoolProp(FluidChoice::Nitrogen)));
    assert_eq!(select_model("CoolProp", "Helium"), Ok(ModelChoice::CoolProp(FluidChoice::Helium)));
    assert_eq!(select_model("CoolProp", "Butane"), Ok(ModelChoice::CoolProp(FluidChoice::Butane)));
}

#[test]
fn names_are_case_sensitive() {
    assert!(select_model("perfectgas", "CarbonDioxide").is_err());
    assert!(select_model("CoolProp", "nitrogen").is_err());
}

#[test]
fn fluid_name_round_trip() {
    for f in [FluidChoice::CarbonDioxide, FluidChoice::Nitrogen, FluidChoice::Helium, FluidChoice::Butane] {
        assert_eq!(FluidChoice::from_name(f.name()), Some(f));
    }
    assert_eq!(FluidChoice::from_name("Water"), None);
}

#[test]
fn fluid_identifiers_carry_coolprop_names() {
    assert_eq!(Nitrogen::NAME, "Nitrogen");
    assert_eq!(Helium::NAME, "Helium");
    assert_eq!(Butane::NAME, "Butane");
    assert_eq!(Nitrogen::BACKEND, "HEOS");
    assert_eq!(Helium::BACKEND, "HEOS");
    assert_eq!(Butane::BACKEND, "HEOS");
    assert_eq!(FluidChoice::Nitrogen.name(), Nitrogen::NAME);
    assert_eq!(Nitrogen, Nitrogen::default());
}

#[test]
fn default_fluid_is_carbon_dioxide() {
    assert_eq!(default_fluid(), "CarbonDioxide");
    assert_eq!(brayton::facade::simple::default_model(), "PerfectGas");
    assert_eq!(brayton::facade::recomp::default_model(), "CoolProp");
}

#[test]
fn validation_accepts_when_no_field_is_rejected() {
    assert_eq!(validate_fields(&vec![]), Ok(()));
    assert_eq!(validate_fields(&vec![accepted("a"), accepted("b")]), Ok(()));
}

#[test]
fn validation_reports_first_rejected_field() {
    let checks = vec![
        accepted("compressor_efficiency"),
        rejected("turbine_efficiency", "value out of range"),
        rejected("recuperator_dp_cold_fraction", "negative"),
    ];
    assert_eq!(
        validate_fields(&checks),
        Err(String::from("invalid turbine_efficiency: value out of range"))
    );
}

#[test]
fn rejected_compressor_efficiency_is_named() {
    let checks = vec![rejected("compressor_efficiency", "1.5 is not in (0, 1]"), accepted("turbine_efficiency")];
    let result = plan_design_point(&checks, "PerfectGas", "CarbonDioxide");
    assert!(result.unwrap_err().contains("compressor_efficiency"));
}

#[test]
fn field_errors_precede_model_errors() {
    let checks = vec![rejected("recuperator_dp_cold_fraction", "negative")];
    assert_eq!(
        plan_design_point(&checks, "Bogus", "Unobtanium"),
        Err(String::from("invalid recuperator_dp_cold_fraction: negative"))
    );
    assert_eq!(
        plan_design_point(&vec![accepted("x")], "Bogus", "Unobtanium"),
        Err(String::from("unknown model: Bogus"))
    );
    assert_eq!(
        plan_design_point(&vec![accepted("x")], "CoolProp", "Helium"),
        Ok(ModelChoice::CoolProp(FluidChoice::Helium))
    );
}

#[test]
fn simple_fields_are_validated_in_order() {
    let problems = SimpleFieldProblems {
        compressor_efficiency: Some(String::from("value is above the maximum allowed")),
        recuperator_dp_cold_fraction: Some(String::from("value is below the minimum allowed")),
        ..simple_accepted()
    };
    assert_eq!(
        simple_plan(problems, "Bogus", "CarbonDioxide").unwrap_err(),
        "invalid compressor_efficiency: value is above the maximum allowed"
    );
    let problems = SimpleFieldProblems {
        primary_hx_dp_fraction: Some(String::from("x")),
        recuperator_dp_hot_fraction: Some(String::from("y")),
        ..simple_accepted()
    };
    assert_eq!(
        simple_plan(problems, "PerfectGas", "CarbonDioxide").unwrap_err(),
        "invalid recuperator_dp_hot_fraction: y"
    );
    assert_eq!(
        simple_plan(simple_accepted(), "PerfectGas", "Helium"),
        Ok(ModelChoice::PerfectGasCarbonDioxide)
    );
}

#[test]
fn recomp_fraction_is_validated_first() {
    let problems = RecompFieldProblems {
        recomp_frac: Some(String::from("1.5 (must be in [0, 1))")),
        mc_efficiency: Some(String::from("x")),
        ..recomp_accepted()
    };
    assert_eq!(
        recomp_plan(problems, "CoolProp", "CarbonDioxide").unwrap_err(),
        "invalid recomp_frac: 1.5 (must be in [0, 1))"
    );
    let problems = RecompFieldProblems {
        ht_recuperator_dp_hot_fraction: Some(String::from("negative")),
        precooler_dp_fraction: Some(String::from("x")),
        ..recomp_accepted()
    };
    assert_eq!(
        recomp_plan(problems, "CoolProp", "CarbonDioxide").unwrap_err(),
        "invalid ht_recuperator_dp_hot_fraction: negative"
    );
    assert_eq!(
        recomp_plan(recomp_accepted(), "CoolProp", "Butane"),
        Ok(ModelChoice::CoolProp(FluidChoice::Butane))
    );
}

#[test]
fn construction_failure_text() {
    assert_eq!(
        brayton::selection::construction_failure_message("bad fluid"),
        "failed to construct thermodynamic model: bad fluid"
    );
}
