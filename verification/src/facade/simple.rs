//! Facade of the simple recuperated cycle.

use vstd::prelude::*;

use crate::facade::{
    self, checks_view, design_point_choice, design_point_plan, field_check,
    is_first_rejected, lemma_rejected_field_precedes_model_choice, option_text, FieldCheckView,
};
use crate::selection::{choice_view, ModelChoice};

verus! {

/// Default model name used when an input leaves the model unspecified.
pub fn default_model() -> (res: String)
    ensures
        res@ == "PerfectGas"@,
{
    String::from_str("PerfectGas")
}

/// Why each validated field of a simple-cycle input is rejected, if it is.
pub struct SimpleFieldProblems {
    /// Why `compressor_efficiency` is rejected, or `None` if it is accepted.
    pub compressor_efficiency: Option<String>,
    /// Why `turbine_efficiency` is rejected, or `None` if it is accepted.
    pub turbine_efficiency: Option<String>,
    /// Why `recuperator_dp_cold_fraction` is rejected, or `None` if it is accepted.
    pub recuperator_dp_cold_fraction: Option<String>,
    /// Why `recuperator_dp_hot_fraction` is rejected, or `None` if it is accepted.
    pub recuperator_dp_hot_fraction: Option<String>,
    /// Why `precooler_dp_fraction` is rejected, or `None` if it is accepted.
    pub precooler_dp_fraction: Option<String>,
    /// Why `primary_hx_dp_fraction` is rejected, or `None` if it is accepted.
    pub primary_hx_dp_fraction: Option<String>,
}

/// The checks of a simple-cycle input, in the order in which the fields are
/// validated.
pub open spec fn simple_field_checks(p: SimpleFieldProblems) -> Seq<FieldCheckView> {
    seq![
        ("compressor_efficiency"@, option_text(p.compressor_efficiency)),
        ("turbine_efficiency"@, option_text(p.turbine_efficiency)),
        ("recuperator_dp_cold_fraction"@, option_text(p.recuperator_dp_cold_fraction)),
        ("recuperator_dp_hot_fraction"@, option_text(p.recuperator_dp_hot_fraction)),
        ("precooler_dp_fraction"@, option_text(p.precooler_dp_fraction)),
        ("primary_hx_dp_fraction"@, option_text(p.primary_hx_dp_fraction)),
    ]
}

/// A simple-cycle plan is refused exactly when one of its validated fields is
/// rejected, and then with the error of the first rejected field in the
/// order `compressor_efficiency`, `turbine_efficiency`, `recuperator_dp_cold_fraction`, `recuperator_dp_hot_fraction`, `precooler_dp_fraction`, `primary_hx_dp_fraction`; when no field is rejected, the plan is the model choice.
pub proof fn lemma_simple_fields_validated_in_order(p: SimpleFieldProblems, model: Seq<char>, fluid: Seq<char>)
    ensures
        design_point_plan(simple_field_checks(p), model, fluid) is Ok ==> (p.compressor_efficiency is None && p.turbine_efficiency is None && p.recuperator_dp_cold_fraction is None && p.recuperator_dp_hot_fraction is None && p.precooler_dp_fraction is None && p.primary_hx_dp_fraction is None),
        (p.compressor_efficiency is Some) ==> design_point_plan(simple_field_checks(p), model, fluid) == Err::<ModelChoice, Seq<char>>(
            "invalid "@ + "compressor_efficiency"@ + ": "@ + (p.compressor_efficiency->0@),
        ),
        (p.compressor_efficiency is None && p.turbine_efficiency is Some) ==> design_point_plan(simple_field_checks(p), model, fluid) == Err::<ModelChoice, Seq<char>>(
            "invalid "@ + "turbine_efficiency"@ + ": "@ + (p.turbine_efficiency->0@),
        ),
        (p.compressor_efficiency is None && p.turbine_efficiency is None && p.recuperator_dp_cold_fraction is Some) ==> design_point_plan(simple_field_checks(p), model, fluid) == Err::<ModelChoice, Seq<char>>(
            "invalid "@ + "recuperator_dp_cold_fraction"@ + ": "@ + (p.recuperator_dp_cold_fraction->0@),
        ),
        (p.compressor_efficiency is None && p.turbine_efficiency is None && p.recuperator_dp_cold_fraction is None && p.recuperator_dp_hot_fraction is Some) ==> design_point_plan(simple_field_checks(p), model, fluid) == Err::<ModelChoice, Seq<char>>(
            "invalid "@ + "recuperator_dp_hot_fraction"@ + ": "@ + (p.recuperator_dp_hot_fraction->0@),
        ),
        (p.compressor_efficiency is None && p.turbine_efficiency is None && p.recuperator_dp_cold_fraction is None && p.recuperator_dp_hot_fraction is None && p.precooler_dp_fraction is Some) ==> design_point_plan(simple_field_checks(p), model, fluid) == Err::<ModelChoice, Seq<char>>(
            "invalid "@ + "precooler_dp_fraction"@ + ": "@ + (p.precooler_dp_fraction->0@),
        ),
        (p.compressor_efficiency is None && p.turbine_efficiency is None && p.recuperator_dp_cold_fraction is None && p.recuperator_dp_hot_fraction is None && p.precooler_dp_fraction is None && p.primary_hx_dp_fraction is Some) ==> design_point_plan(simple_field_checks(p), model, fluid) == Err::<ModelChoice, Seq<char>>(
            "invalid "@ + "primary_hx_dp_fraction"@ + ": "@ + (p.primary_hx_dp_fraction->0@),
        ),
        (p.compressor_efficiency is None && p.turbine_efficiency is None && p.recuperator_dp_cold_fraction is None && p.recuperator_dp_hot_fraction is None && p.precooler_dp_fraction is None && p.primary_hx_dp_fraction is None) ==> design_point_plan(simple_field_checks(p), model, fluid) == design_point_choice(model, fluid),
{
    let checks = simple_field_checks(p);
    if p.compressor_efficiency is Some {
        assert(is_first_rejected(checks, 0));
        lemma_rejected_field_precedes_model_choice(checks, 0, model, fluid);
    } else if p.turbine_efficiency is Some {
        assert(is_first_rejected(checks, 1));
        lemma_rejected_field_precedes_model_choice(checks, 1, model, fluid);
    } else if p.recuperator_dp_cold_fraction is Some {
        assert(is_first_rejected(checks, 2));
        lemma_rejected_field_precedes_model_choice(checks, 2, model, fluid);
    } else if p.recuperator_dp_hot_fraction is Some {
        assert(is_first_rejected(checks, 3));
        lemma_rejected_field_precedes_model_choice(checks, 3, model, fluid);
    } else if p.precooler_dp_fraction is Some {
        assert(is_first_rejected(checks, 4));
        lemma_rejected_field_precedes_model_choice(checks, 4, model, fluid);
    } else if p.primary_hx_dp_fraction is Some {
        assert(is_first_rejected(checks, 5));
        lemma_rejected_field_precedes_model_choice(checks, 5, model, fluid);
    } else {
        lemma_rejected_field_precedes_model_choice(checks, 0, model, fluid);
    }
}

/// Decides a design-point calculation of a simple-cycle input: validates its fields
/// in their order, then chooses the model.
pub fn plan_design_point(problems: SimpleFieldProblems, model: &str, fluid: &str) -> (res: Result<
    ModelChoice,
    String,
>)
    ensures
        choice_view(res) == design_point_plan(simple_field_checks(problems), model@, fluid@),
        choice_view(res) is Ok ==> (problems.compressor_efficiency is None && problems.turbine_efficiency is None && problems.recuperator_dp_cold_fraction is None && problems.recuperator_dp_hot_fraction is None && problems.precooler_dp_fraction is None && problems.primary_hx_dp_fraction is None),
        (problems.compressor_efficiency is Some) ==> choice_view(res) == Err::<ModelChoice, Seq<char>>(
            "invalid "@ + "compressor_efficiency"@ + ": "@ + (problems.compressor_efficiency->0@),
        ),
        (problems.compressor_efficiency is None && problems.turbine_efficiency is Some) ==> choice_view(res) == Err::<ModelChoice, Seq<char>>(
            "invalid "@ + "turbine_efficiency"@ + ": "@ + (problems.turbine_efficiency->0@),
        ),
        (problems.compressor_efficiency is None && problems.turbine_efficiency is None && problems.recuperator_dp_cold_fraction is Some) ==> choice_view(res) == Err::<ModelChoice, Seq<char>>(
            "invalid "@ + "recuperator_dp_cold_fraction"@ + ": "@ + (problems.recuperator_dp_cold_fraction->0@),
        ),
        (problems.compressor_efficiency is None && problems.turbine_efficiency is None && problems.recuperator_dp_cold_fraction is None && problems.recuperator_dp_hot_fraction is Some) ==> choice_view(res) == Err::<ModelChoice, Seq<char>>(
            "invalid "@ + "recuperator_dp_hot_fraction"@ + ": "@ + (problems.recuperator_dp_hot_fraction->0@),
        ),
        (problems.compressor_efficiency is None && problems.turbine_efficiency is None && problems.recuperator_dp_cold_fraction is None && problems.recuperator_dp_hot_fraction is None && problems.precooler_dp_fraction is Some) ==> choice_view(res) == Err::<ModelChoice, Seq<char>>(
            "invalid "@ + "precooler_dp_fraction"@ + ": "@ + (problems.precooler_dp_fraction->0@),
        ),
        (problems.compressor_efficiency is None && problems.turbine_efficiency is None && problems.recuperator_dp_cold_fraction is None && problems.recuperator_dp_hot_fraction is None && problems.precooler_dp_fraction is None && problems.primary_hx_dp_fraction is Some) ==> choice_view(res) == Err::<ModelChoice, Seq<char>>(
            "invalid "@ + "primary_hx_dp_fraction"@ + ": "@ + (problems.primary_hx_dp_fraction->0@),
        ),
        (problems.compressor_efficiency is None && problems.turbine_efficiency is None && problems.recuperator_dp_cold_fraction is None && problems.recuperator_dp_hot_fraction is None && problems.precooler_dp_fraction is None && problems.primary_hx_dp_fraction is None) ==> choice_view(res) == design_point_choice(model@, fluid@),
{
    proof {
        lemma_simple_fields_validated_in_order(problems, model@, fluid@);
    }
    let ghost expected = simple_field_checks(problems);
    let checks = vec![
        field_check("compressor_efficiency", problems.compressor_efficiency),
        field_check("turbine_efficiency", problems.turbine_efficiency),
        field_check("recuperator_dp_cold_fraction", problems.recuperator_dp_cold_fraction),
        field_check("recuperator_dp_hot_fraction", problems.recuperator_dp_hot_fraction),
        field_check("precooler_dp_fraction", problems.precooler_dp_fraction),
        field_check("primary_hx_dp_fraction", problems.primary_hx_dp_fraction),
    ];
    proof {
        assert(checks_view(checks@) =~= expected);
    }
    facade::plan_design_point(&checks, model, fluid)
}

} // verus!
