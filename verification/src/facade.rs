//! Plain-data facades of the cycle solvers: the decisions they take before
//! any thermodynamic work is done.
//!
//! A facade call first validates its input fields in a fixed order and
//! reports the first field that is out of range; it then chooses the
//! thermodynamic model and fluid by name.

use vstd::prelude::*;

use crate::selection::{
    choice_view, choose_coolprop, coolprop_choice, unknown_model_text, ModelChoice,
};
use crate::text::{concat2, str_eq};

pub mod recomp;
pub mod simple;

verus! {

/// Default fluid name used when an input leaves the fluid unspecified.
pub fn default_fluid() -> (res: String)
    ensures
        res@ == "CarbonDioxide"@,
{
    String::from_str("CarbonDioxide")
}

/// The outcome of checking one input field: its name, and the reason it is
/// rejected if it is.
pub struct FieldCheck {
    /// Name of the input field.
    pub name: String,
    /// Why the field's value is rejected, or `None` if it is accepted.
    pub problem: Option<String>,
}

/// A field check by its view: the field's name, and the reason it is
/// rejected if it is.
pub type FieldCheckView = (Seq<char>, Option<Seq<char>>);

/// An optional text by its view.
pub open spec fn option_text(o: Option<String>) -> Option<Seq<char>> {
    match o {
        Some(s) => Some(s@),
        None => None,
    }
}

impl View for FieldCheck {
    type V = FieldCheckView;

    open spec fn view(&self) -> FieldCheckView {
        (self.name@, option_text(self.problem))
    }
}

/// The check of a field named `name`.
pub fn field_check(name: &str, problem: Option<String>) -> (res: FieldCheck)
    ensures
        res@ == (name@, option_text(problem)),
{
    FieldCheck { name: String::from_str(name), problem }
}

/// A list of field checks by its view.
pub open spec fn checks_view(checks: Seq<FieldCheck>) -> Seq<FieldCheckView> {
    checks.map_values(|c: FieldCheck| c@)
}

/// Text of the error for a rejected field.
pub open spec fn invalid_field_text(name: Seq<char>, detail: Seq<char>) -> Seq<char> {
    "invalid "@ + name + ": "@ + detail
}

/// `i` is the first rejected field among `checks`.
pub open spec fn is_first_rejected(checks: Seq<FieldCheckView>, i: int) -> bool {
    &&& 0 <= i < checks.len()
    &&& checks[i].1 is Some
    &&& forall|j: int| 0 <= j < i ==> #[trigger] checks[j].1 is None
}

/// The error reported for `checks`: that of the first rejected field, if any.
pub open spec fn validation_error(checks: Seq<FieldCheckView>) -> Option<Seq<char>> {
    if exists|i: int| is_first_rejected(checks, i) {
        let i = choose|i: int| is_first_rejected(checks, i);
        Some(invalid_field_text(checks[i].0, checks[i].1->0))
    } else {
        None
    }
}

/// A validation outcome by its view.
pub open spec fn validation_view(r: Result<(), String>) -> Option<Seq<char>> {
    match r {
        Ok(()) => None,
        Err(e) => Some(e@),
    }
}

/// The model that a design-point input selects: `"PerfectGas"` runs on
/// perfect-gas carbon dioxide whatever the fluid, `"CoolProp"` on the fluid
/// named.
pub open spec fn design_point_choice(model: Seq<char>, fluid: Seq<char>) -> Result<
    ModelChoice,
    Seq<char>,
> {
    if model == "PerfectGas"@ {
        Ok(ModelChoice::PerfectGasCarbonDioxide)
    } else if model == "CoolProp"@ {
        coolprop_choice(fluid)
    } else {
        Err(unknown_model_text(model))
    }
}

/// What a design-point input leads to: the first field error if a field is
/// rejected, otherwise the model choice.
pub open spec fn design_point_plan(checks: Seq<FieldCheckView>, model: Seq<char>, fluid: Seq<char>) -> Result<
    ModelChoice,
    Seq<char>,
> {
    match validation_error(checks) {
        Some(e) => Err(e),
        None => design_point_choice(model, fluid),
    }
}

proof fn lemma_first_rejected_unique(checks: Seq<FieldCheckView>, i: int, k: int)
    requires
        is_first_rejected(checks, i),
        is_first_rejected(checks, k),
    ensures
        i == k,
{
    if i < k {
        assert(checks[i].1 is None);
    } else if k < i {
        assert(checks[k].1 is None);
    }
}

/// Checks the fields in order and reports the first rejected one.
pub fn validate_fields(checks: &Vec<FieldCheck>) -> (res: Result<(), String>)
    ensures
        validation_view(res) == validation_error(checks_view(checks@)),
        res is Ok <==> forall|i: int| 0 <= i < checks@.len() ==> #[trigger] checks@[i].problem is None,
{
    let ghost cv = checks_view(checks@);
    let mut i: usize = 0;
    while i < checks.len()
        invariant
            i <= checks@.len(),
            cv == checks_view(checks@),
            forall|j: int| 0 <= j < i ==> #[trigger] checks@[j].problem is None,
        decreases checks@.len() - i,
    {
        match &checks[i].problem {
            Some(p) => {
                let mut msg = String::from_str("invalid ");
                msg.append(checks[i].name.as_str());
                msg.append(": ");
                msg.append(p.as_str());
                proof {
                    assert forall|j: int| 0 <= j < i implies #[trigger] cv[j].1 is None by {
                        assert(checks@[j].problem is None);
                    }
                    assert(cv[i as int] == checks@[i as int]@);
                    assert(is_first_rejected(cv, i as int));
                    let k = choose|k: int| is_first_rejected(cv, k);
                    lemma_first_rejected_unique(cv, i as int, k);
                }
                return Err(msg);
            },
            None => {},
        }
        i = i + 1;
    }
    proof {
        assert forall|k: int| !is_first_rejected(cv, k) by {
            if 0 <= k < cv.len() {
                assert(cv[k] == checks@[k]@);
                assert(checks@[k].problem is None);
            }
        }
    }
    Ok(())
}

/// Chooses the model for a design-point input by name.
pub fn select_model(model: &str, fluid: &str) -> (res: Result<ModelChoice, String>)
    ensures
        choice_view(res) == design_point_choice(model@, fluid@),
{
    if str_eq(model, "PerfectGas") {
        Ok(ModelChoice::PerfectGasCarbonDioxide)
    } else if str_eq(model, "CoolProp") {
        choose_coolprop(fluid)
    } else {
        Err(concat2("unknown model: ", model))
    }
}

/// Decides a design-point calculation: validates the input fields in order,
/// then chooses the model.
pub fn plan_design_point(checks: &Vec<FieldCheck>, model: &str, fluid: &str) -> (res: Result<
    ModelChoice,
    String,
>)
    ensures
        choice_view(res) == design_point_plan(checks_view(checks@), model@, fluid@),
{
    match validate_fields(checks) {
        Err(e) => Err(e),
        Ok(()) => select_model(model, fluid),
    }
}

/// A design-point input that names the perfect-gas model runs on
/// perfect-gas carbon dioxide, whatever fluid it names.
pub proof fn lemma_perfect_gas_ignores_fluid(fluid: Seq<char>)
    ensures
        design_point_choice("PerfectGas"@, fluid) == Ok::<ModelChoice, Seq<char>>(
            ModelChoice::PerfectGasCarbonDioxide,
        ),
{
}

/// Field validation comes before the model choice: when a field is
/// rejected, the reply is the error of the first rejected field, whatever
/// model and fluid the input names; when none is, the reply is the model
/// choice.
pub proof fn lemma_rejected_field_precedes_model_choice(
    checks: Seq<FieldCheckView>,
    i: int,
    model: Seq<char>,
    fluid: Seq<char>,
)
    ensures
        is_first_rejected(checks, i) ==> design_point_plan(checks, model, fluid) == Err::<
            ModelChoice,
            Seq<char>,
        >(invalid_field_text(checks[i].0, checks[i].1->0)),
        (forall|j: int| 0 <= j < checks.len() ==> #[trigger] checks[j].1 is None)
            ==> design_point_plan(checks, model, fluid) == design_point_choice(model, fluid),
{
    if is_first_rejected(checks, i) {
        let k = choose|k: int| is_first_rejected(checks, k);
        lemma_first_rejected_unique(checks, i, k);
    }
    if forall|j: int| 0 <= j < checks.len() ==> #[trigger] checks[j].1 is None {
        assert forall|k: int| !is_first_rejected(checks, k) by {
            if 0 <= k < checks.len() {
                assert(checks[k].1 is None);
            }
        }
    }
}

} // verus!
