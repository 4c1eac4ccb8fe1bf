//! Facade of the recompression cycle.

use vstd::prelude::*;

use crate::facade::{
    self, checks_view, design_point_choice, design_point_plan, field_check,
    is_first_rejected, lemma_rejected_field_precedes_model_choice, option_text, FieldCheckView,
};
use crate::selection::{choice_view, ModelChoice};

verus! {

/// Default model name used when an input leaves the model unspecified: the
/// recompression cycle needs a real-fluid model.
pub fn default_model() -> (res: String)
    ensures
        res@ == "CoolProp"@,
{
    String::from_str("CoolProp")
}

/// Why each validated field of a recompression-cycle input is rejected, if it is.
pub struct RecompFieldProblems {
    /// Why `recomp_frac` is rejected, or `None` if it is accepted.
    pub recomp_frac: Option<String>,
    /// Why `mc_efficiency` is rejected, or `None` if it is accepted.
    pub mc_efficiency: Option<String>,
    /// Why `rc_efficiency` is rejected, or `None` if it is accepted.
    pub rc_efficiency: Option<String>,
    /// Why `turbine_efficiency` is rejected, or `None` if it is accepted.
    pub turbine_efficiency: Option<String>,
    /// Why `lt_recuperator_dp_cold_fraction` is rejected, or `None` if it is accepted.
    pub lt_recuperator_dp_cold_fraction: Option<String>,
    /// Why `lt_recuperator_dp_hot_fraction` is rejected, or `None` if it is accepted.
    pub lt_recuperator_dp_hot_fraction: Option<String>,
    /// Why `ht_recuperator_dp_cold_fraction` is rejected, or `None` if it is accepted.
    pub ht_recuperator_dp_cold_fraction: Option<String>,
    /// Why `ht_recuperator_dp_hot_fraction` is rejected, or `None` if it is accepted.
    pub ht_recuperator_dp_hot_fraction: Option<String>,
    /// Why `precooler_dp_fraction` is rejected, or `None` if it is accepted.
    pub precooler_dp_fraction: Option<String>,
    /// Why `primary_hx_dp_fraction` is rejected, or `None` if it is accepted.
    pub primary_hx_dp_fraction: Option<String>,
}

/// The checks of a recompression-cycle input, in the order in which the fields are
/// validated.
pub open spec fn recomp_field_checks(p: RecompFieldProblems) -> Seq<FieldCheckView> {
    seq![
        ("recomp_frac"@, option_text(p.recomp_frac)),
        ("mc_efficiency"@, option_text(p.mc_efficiency)),
        ("rc_efficiency"@, option_text(p.rc_efficiency)),
        ("turbine_efficiency"@, option_text(p.turbine_efficiency)),
        ("lt_recuperator_dp_cold_fraction"@, option_text(p.lt_recuperator_dp_cold_fraction)),
        ("lt_recuperator_dp_hot_fraction"@, option_text(p.lt_recuperator_dp_hot_fraction)),
        ("ht_recuperator_dp_cold_fraction"@, option_text(p.ht_recuperator_dp_cold_fraction)),
        ("ht_recuperator_dp_hot_fraction"@, option_text(p.ht_recuperator_dp_hot_fraction)),
        ("precooler_dp_fraction"@, option_text(p.precooler_dp_fraction)),
        ("primary_hx_dp_fraction"@, option_text(p.primary_hx_dp_fraction)),
    ]
}

/// A recompression-cycle plan is refused exactly when one of its validated fields is
/// rejected, and then with the error of the first rejected field in the
/// order `recomp_frac`, `mc_efficiency`, `rc_efficiency`, `turbine_efficiency`, `lt_recuperator_dp_cold_fraction`, `lt_recuperator_dp_hot_fraction`, `ht_recuperator_dp_cold_fraction`, `ht_recuperator_dp_hot_fraction`, `precooler_dp_fraction`, `primary_hx_dp_fraction`; when no field is rejected, the plan is the model choice.
pub proof fn lemma_recomp_fields_validated_in_order(p: RecompFieldProblems, model: Seq<char>, fluid: Seq<char>)
    ensures
        design_point_plan(recomp_field_checks(p), model, fluid) is Ok ==> (p.recomp_frac is None && p.mc_efficiency is None && p.rc_efficiency is None && p.turbine_efficiency is None && p.lt_recuperator_dp_cold_fraction is None && p.lt_recuperator_dp_hot_fraction is None && p.ht_recuperator_dp_cold_fraction is None && p.ht_recuperator_dp_hot_fraction is None && p.precooler_dp_fraction is None && p.primary_hx_dp_fraction is None),
        (p.recomp_frac is Some) ==> design_point_plan(recomp_field_checks(p), model, fluid) == Err::<ModelChoice, Seq<char>>(
            "invalid "@ + "recomp_frac"@ + ": "@ + (p.recomp_frac->0@),
        ),
        (p.recomp_frac is None && p.mc_efficiency is Some) ==> design_point_plan(recomp_field_checks(p), model, fluid) == Err::<ModelChoice, Seq<char>>(
            "invalid "@ + "mc_efficiency"@ + ": "@ + (p.mc_efficiency->0@),
        ),
        (p.recomp_frac is None && p.mc_efficiency is None && p.rc_efficiency is Some) ==> design_point_plan(recomp_field_checks(p), model, fluid) == Err::<ModelChoice, Seq<char>>(
            "invalid "@ + "rc_efficiency"@ + ": "@ + (p.rc_efficiency->0@),
        ),
        (p.recomp_frac is None && p.mc_efficiency is None && p.rc_efficiency is None && p.turbine_efficiency is Some) ==> design_point_plan(recomp_field_checks(p), model, fluid) == Err::<ModelChoice, Seq<char>>(
            "invalid "@ + "turbine_efficiency"@ + ": "@ + (p.turbine_efficiency->0@),
        ),
        (p.recomp_frac is None && p.mc_efficiency is None && p.rc_efficiency is None && p.turbine_efficiency is None && p.lt_recuperator_dp_cold_fraction is Some) ==> design_point_plan(recomp_field_checks(p), model, fluid) == Err::<ModelChoice, Seq<char>>(
            "invalid "@ + "lt_recuperator_dp_cold_fraction"@ + ": "@ + (p.lt_recuperator_dp_cold_fraction->0@),
        ),
        (p.recomp_frac is None && p.mc_efficiency is None && p.rc_efficiency is None && p.turbine_efficiency is None && p.lt_recuperator_dp_cold_fraction is None && p.lt_recuperator_dp_hot_fraction is Some) ==> design_point_plan(recomp_field_checks(p), model, fluid) == Err::<ModelChoice, Seq<char>>(
            "invalid "@ + "lt_recuperator_dp_hot_fraction"@ + ": "@ + (p.lt_recuperator_dp_hot_fraction->0@),
        ),
        (p.recomp_frac is None && p.mc_efficiency is None && p.rc_efficiency is None && p.turbine_efficiency is None && p.lt_recuperator_dp_cold_fraction is None && p.lt_recuperator_dp_hot_fraction is None && p.ht_recuperator_dp_cold_fraction is Some) ==> design_point_plan(recomp_field_checks(p), model, fluid) == Err::<ModelChoice, Seq<char>>(
            "invalid "@ + "ht_recuperator_dp_cold_fraction"@ + ": "@ + (p.ht_recuperator_dp_cold_fraction->0@),
        ),
        (p.recomp_frac is None && p.mc_efficiency is None && p.rc_efficiency is None && p.turbine_efficiency is None && p.lt_recuperator_dp_cold_fraction is None && p.lt_recuperator_dp_hot_fraction is None && p.ht_recuperator_dp_cold_fraction is None && p.ht_recuperator_dp_hot_fraction is Some) ==> design_point_plan(recomp_field_checks(p), model, fluid) == Err::<ModelChoice, Seq<char>>(
            "invalid "@ + "ht_recuperator_dp_hot_fraction"@ + ": "@ + (p.ht_recuperator_dp_hot_fraction->0@),
        ),
        (p.recomp_frac is None && p.mc_efficiency is None && p.rc_efficiency is None && p.turbine_efficiency is None && p.lt_recuperator_dp_cold_fraction is None && p.lt_recuperator_dp_hot_fraction is None && p.ht_recuperator_dp_cold_fraction is None && p.ht_recuperator_dp_hot_fraction is None && p.precooler_dp_fraction is Some) ==> design_point_plan(recomp_field_checks(p), model, fluid) == Err::<ModelChoice, Seq<char>>(
            "invalid "@ + "precooler_dp_fraction"@ + ": "@ + (p.precooler_dp_fraction->0@),
        ),
        (p.recomp_frac is None && p.mc_efficiency is None && p.rc_efficiency is None && p.turbine_efficiency is None && p.lt_recuperator_dp_cold_fraction is None && p.lt_recuperator_dp_hot_fraction is None && p.ht_recuperator_dp_cold_fraction is None && p.ht_recuperator_dp_hot_fraction is None && p.precooler_dp_fraction is None && p.primary_hx_dp_fraction is Some) ==> design_point_plan(recomp_field_checks(p), model, fluid) == Err::<ModelChoice, Seq<char>>(
            "invalid "@ + "primary_hx_dp_fraction"@ + ": "@ + (p.primary_hx_dp_fraction->0@),
        ),
        (p.recomp_frac is None && p.mc_efficiency is None && p.rc_efficiency is None && p.turbine_efficiency is None && p.lt_recuperator_dp_cold_fraction is None && p.lt_recuperator_dp_hot_fraction is None && p.ht_recuperator_dp_cold_fraction is None && p.ht_recuperator_dp_hot_fraction is None && p.precooler_dp_fraction is None && p.primary_hx_dp_fraction is None) ==> design_point_plan(recomp_field_checks(p), model, fluid) == design_point_choice(model, fluid),
{
    let checks = recomp_field_checks(p);
    if p.recomp_frac is Some {
        assert(is_first_rejected(checks, 0));
        lemma_rejected_field_precedes_model_choice(checks, 0, model, fluid);
    } else if p.mc_efficiency is Some {
        assert(is_first_rejected(checks, 1));
        lemma_rejected_field_precedes_model_choice(checks, 1, model, fluid);
    } else if p.rc_efficiency is Some {
        assert(is_first_rejected(checks, 2));
        lemma_rejected_field_precedes_model_choice(checks, 2, model, fluid);
    } else if p.turbine_efficiency is Some {
        assert(is_first_rejected(checks, 3));
        lemma_rejected_field_precedes_model_choice(checks, 3, model, fluid);
    } else if p.lt_recuperator_dp_cold_fraction is Some {
        assert(is_first_rejected(checks, 4));
        lemma_rejected_field_precedes_model_choice(checks, 4, model, fluid);
    } else if p.lt_recuperator_dp_hot_fraction is Some {
        assert(is_first_rejected(checks, 5));
        lemma_rejected_field_precedes_model_choice(checks, 5, model, fluid);
    } else if p.ht_recuperator_dp_cold_fraction is Some {
        assert(is_first_rejected(checks, 6));
        lemma_rejected_field_precedes_model_choice(checks, 6, model, fluid);
    } else if p.ht_recuperator_dp_hot_fraction is Some {
        assert(is_first_rejected(checks, 7));
        lemma_rejected_field_precedes_model_choice(checks, 7, model, fluid);
    } else if p.precooler_dp_fraction is Some {
        assert(is_first_rejected(checks, 8));
        lemma_rejected_field_precedes_model_choice(checks, 8, model, fluid);
    } else if p.primary_hx_dp_fraction is Some {
        assert(is_first_rejected(checks, 9));
        lemma_rejected_field_precedes_model_choice(checks, 9, model, fluid);
    } else {
        lemma_rejected_field_precedes_model_choice(checks, 0, model, fluid);
    }
}

/// Decides a design-point calculation of a recompression-cycle input: validates its fields
/// in their order, then chooses the model.
pub fn plan_design_point(problems: RecompFieldProblems, model: &str, fluid: &str) -> (res: Result<
    ModelChoice,
    String,
>)
    ensures
        choice_view(res) == design_point_plan(recomp_field_checks(problems), model@, fluid@),
        choice_view(res) is Ok ==> (problems.recomp_frac is None && problems.mc_efficiency is None && problems.rc_efficiency is None && problems.turbine_efficiency is None && problems.lt_recuperator_dp_cold_fraction is None && problems.lt_recuperator_dp_hot_fraction is None && problems.ht_recuperator_dp_cold_fraction is None && problems.ht_recuperator_dp_hot_fraction is None && problems.precooler_dp_fraction is None && problems.primary_hx_dp_fraction is None),
        (problems.recomp_frac is Some) ==> choice_view(res) == Err::<ModelChoice, Seq<char>>(
            "invalid "@ + "recomp_frac"@ + ": "@ + (problems.recomp_frac->0@),
        ),
        (problems.recomp_frac is None && problems.mc_efficiency is Some) ==> choice_view(res) == Err::<ModelChoice, Seq<char>>(
            "invalid "@ + "mc_efficiency"@ + ": "@ + (problems.mc_efficiency->0@),
        ),
        (problems.recomp_frac is None && problems.mc_efficiency is None && problems.rc_efficiency is Some) ==> choice_view(res) == Err::<ModelChoice, Seq<char>>(
            "invalid "@ + "rc_efficiency"@ + ": "@ + (problems.rc_efficiency->0@),
        ),
        (problems.recomp_frac is None && problems.mc_efficiency is None && problems.rc_efficiency is None && problems.turbine_efficiency is Some) ==> choice_view(res) == Err::<ModelChoice, Seq<char>>(
            "invalid "@ + "turbine_efficiency"@ + ": "@ + (problems.turbine_efficiency->0@),
        ),
        (problems.recomp_frac is None && problems.mc_efficiency is None && problems.rc_efficiency is None && problems.turbine_efficiency is None && problems.lt_recuperator_dp_cold_fraction is Some) ==> choice_view(res) == Err::<ModelChoice, Seq<char>>(
            "invalid "@ + "lt_recuperator_dp_cold_fraction"@ + ": "@ + (problems.lt_recuperator_dp_cold_fraction->0@),
        ),
        (problems.recomp_frac is None && problems.mc_efficiency is None && problems.rc_efficiency is None && problems.turbine_efficiency is None && problems.lt_recuperator_dp_cold_fraction is None && problems.lt_recuperator_dp_hot_fraction is Some) ==> choice_view(res) == Err::<ModelChoice, Seq<char>>(
            "invalid "@ + "lt_recuperator_dp_hot_fraction"@ + ": "@ + (problems.lt_recuperator_dp_hot_fraction->0@),
        ),
        (problems.recomp_frac is None && problems.mc_efficiency is None && problems.rc_efficiency is None && problems.turbine_efficiency is None && problems.lt_recuperator_dp_cold_fraction is None && problems.lt_recuperator_dp_hot_fraction is None && problems.ht_recuperator_dp_cold_fraction is Some) ==> choice_view(res) == Err::<ModelChoice, Seq<char>>(
            "invalid "@ + "ht_recuperator_dp_cold_fraction"@ + ": "@ + (problems.ht_recuperator_dp_cold_fraction->0@),
        ),
        (problems.recomp_frac is None && problems.mc_efficiency is None && problems.rc_efficiency is None && problems.turbine_efficiency is None && problems.lt_recuperator_dp_cold_fraction is None && problems.lt_recuperator_dp_hot_fraction is None && problems.ht_recuperator_dp_cold_fraction is None && problems.ht_recuperator_dp_hot_fraction is Some) ==> choice_view(res) == Err::<ModelChoice, Seq<char>>(
            "invalid "@ + "ht_recuperator_dp_hot_fraction"@ + ": "@ + (problems.ht_recuperator_dp_hot_fraction->0@),
        ),
        (problems.recomp_frac is None && problems.mc_efficiency is None && problems.rc_efficiency is None && problems.turbine_efficiency is None && problems.lt_recuperator_dp_cold_fraction is None && problems.lt_recuperator_dp_hot_fraction is None && problems.ht_recuperator_dp_cold_fraction is None && problems.ht_recuperator_dp_hot_fraction is None && problems.precooler_dp_fraction is Some) ==> choice_view(res) == Err::<ModelChoice, Seq<char>>(
            "invalid "@ + "precooler_dp_fraction"@ + ": "@ + (problems.precooler_dp_fraction->0@),
        ),
        (problems.recomp_frac is None && problems.mc_efficiency is None && problems.rc_efficiency is None && problems.turbine_efficiency is None && problems.lt_recuperator_dp_cold_fraction is None && problems.lt_recuperator_dp_hot_fraction is None && problems.ht_recuperator_dp_cold_fraction is None && problems.ht_recuperator_dp_hot_fraction is None && problems.precooler_dp_fraction is None && problems.primary_hx_dp_fraction is Some) ==> choice_view(res) == Err::<ModelChoice, Seq<char>>(
            "invalid "@ + "primary_hx_dp_fraction"@ + ": "@ + (problems.primary_hx_dp_fraction->0@),
        ),
        (problems.recomp_frac is None && problems.mc_efficiency is None && problems.rc_efficiency is None && problems.turbine_efficiency is None && problems.lt_recuperator_dp_cold_fraction is None && problems.lt_recuperator_dp_hot_fraction is None && problems.ht_recuperator_dp_cold_fraction is None && problems.ht_recuperator_dp_hot_fraction is None && problems.precooler_dp_fraction is None && problems.primary_hx_dp_fraction is None) ==> choice_view(res) == design_point_choice(model@, fluid@),
{
    proof {
        lemma_recomp_fields_validated_in_order(problems, model@, fluid@);
    }
    let ghost expected = recomp_field_checks(problems);
    let checks = vec![
        field_check("recomp_frac", problems.recomp_frac),
        field_check("mc_efficiency", problems.mc_efficiency),
        field_check("rc_efficiency", problems.rc_efficiency),
        field_check("turbine_efficiency", problems.turbine_efficiency),
        field_check("lt_recuperator_dp_cold_fraction", problems.lt_recuperator_dp_cold_fraction),
        field_check("lt_recuperator_dp_hot_fraction", problems.lt_recuperator_dp_hot_fraction),
        field_check("ht_recuperator_dp_cold_fraction", problems.ht_recuperator_dp_cold_fraction),
        field_check("ht_recuperator_dp_hot_fraction", problems.ht_recuperator_dp_hot_fraction),
        field_check("precooler_dp_fraction", problems.precooler_dp_fraction),
        field_check("primary_hx_dp_fraction", problems.primary_hx_dp_fraction),
    ];
    proof {
        assert(checks_view(checks@) =~= expected);
    }
    facade::plan_design_point(&checks, model, fluid)
}

} // verus!
