//! Batch state construction from arrays of pressure and enthalpy or entropy:
//! the checks and the model choice that precede the thermodynamic work, and
//! the text of the errors it reports.

use vstd::prelude::*;

use crate::selection::{
    choice_view, choose_coolprop, coolprop_choice, unknown_model_text, ModelChoice,
};
use crate::text::{append_decimal, concat2, decimal, str_eq};

verus! {

/// Default model name used when a batch input leaves the model unspecified.
pub fn default_model() -> (res: String)
    ensures
        res@ == "PerfectGas"@,
{
    String::from_str("PerfectGas")
}

/// Default fluid name used when a batch input leaves the fluid unspecified.
pub fn default_fluid() -> (res: String)
    ensures
        res@ == "CarbonDioxide"@,
{
    String::from_str("CarbonDioxide")
}

/// The second property that a batch pairs with pressure.
#[derive(Debug, Clone, Copy, PartialEq, Eq, Structural)]
pub enum BatchProperty {
    /// Specific enthalpy: states from `(P, h)`.
    Enthalpy,
    /// Specific entropy: states from `(P, s)`.
    Entropy,
}

/// The plural noun by which errors name the values of a property.
pub open spec fn property_plural(p: BatchProperty) -> Seq<char> {
    match p {
        BatchProperty::Enthalpy => "enthalpies"@,
        BatchProperty::Entropy => "entropies"@,
    }
}

/// The argument list by which errors name a state construction.
pub open spec fn property_arguments(p: BatchProperty) -> Seq<char> {
    match p {
        BatchProperty::Enthalpy => "P, h"@,
        BatchProperty::Entropy => "P, s"@,
    }
}

/// Text of the error for pressure and property arrays of different lengths.
pub open spec fn length_mismatch_text(p: BatchProperty, n_pressures: nat, n_values: nat) -> Seq<char> {
    "array length mismatch: "@ + decimal(n_pressures) + " pressures, "@ + decimal(n_values) + " "@
        + property_plural(p)
}

/// Text of the error for a non-CO₂ fluid asked of the perfect-gas model.
pub open spec fn perfect_gas_fluid_text(fluid: Seq<char>) -> Seq<char> {
    "PerfectGas only supports CarbonDioxide, got \""@ + fluid + "\""@
}

/// Text of the error for a state that could not be built.
pub open spec fn state_failure_text(p: BatchProperty, index: nat, detail: Seq<char>) -> Seq<char> {
    "state_from("@ + property_arguments(p) + ") failed at index "@ + decimal(index) + ": "@ + detail
}

/// The model that a batch input selects: the perfect-gas model only for
/// carbon dioxide, CoolProp for the fluid named.
pub open spec fn batch_choice(model: Seq<char>, fluid: Seq<char>) -> Result<ModelChoice, Seq<char>> {
    if model == "PerfectGas"@ {
        if fluid == "CarbonDioxide"@ {
            Ok(ModelChoice::PerfectGasCarbonDioxide)
        } else {
            Err(perfect_gas_fluid_text(fluid))
        }
    } else if model == "CoolProp"@ {
        coolprop_choice(fluid)
    } else {
        Err(unknown_model_text(model))
    }
}

/// What a batch input leads to: a length error if the arrays differ in
/// length, otherwise the model choice.
pub open spec fn batch_plan(
    p: BatchProperty,
    n_pressures: nat,
    n_values: nat,
    model: Seq<char>,
    fluid: Seq<char>,
) -> Result<ModelChoice, Seq<char>> {
    if n_pressures != n_values {
        Err(length_mismatch_text(p, n_pressures, n_values))
    } else {
        batch_choice(model, fluid)
    }
}

/// Rejects non-CO₂ fluids for the perfect-gas model, which only supports
/// carbon dioxide.
pub fn reject_non_co2_perfect_gas(fluid: &str) -> (res: Result<(), String>)
    ensures
        res is Ok <==> fluid@ == "CarbonDioxide"@,
        res matches Err(e) ==> e@ == perfect_gas_fluid_text(fluid@),
{
    if !str_eq(fluid, "CarbonDioxide") {
        let mut msg = String::from_str("PerfectGas only supports CarbonDioxide, got \"");
        msg.append(fluid);
        msg.append("\"");
        return Err(msg);
    }
    Ok(())
}

/// Chooses the model for a batch input by name.
pub fn select_batch_model(model: &str, fluid: &str) -> (res: Result<ModelChoice, String>)
    ensures
        choice_view(res) == batch_choice(model@, fluid@),
{
    if str_eq(model, "PerfectGas") {
        match reject_non_co2_perfect_gas(fluid) {
            Err(e) => Err(e),
            Ok(()) => Ok(ModelChoice::PerfectGasCarbonDioxide),
        }
    } else if str_eq(model, "CoolProp") {
        choose_coolprop(fluid)
    } else {
        Err(concat2("unknown model: ", model))
    }
}

/// Decides a batch calculation: checks the array lengths, then chooses the
/// model.
pub fn plan_batch(
    property: BatchProperty,
    n_pressures: usize,
    n_values: usize,
    model: &str,
    fluid: &str,
) -> (res: Result<ModelChoice, String>)
    ensures
        choice_view(res) == batch_plan(property, n_pressures as nat, n_values as nat, model@, fluid@),
{
    if n_pressures != n_values {
        let mut msg = String::from_str("array length mismatch: ");
        append_decimal(&mut msg, n_pressures);
        msg.append(" pressures, ");
        append_decimal(&mut msg, n_values);
        msg.append(" ");
        match property {
            BatchProperty::Enthalpy => msg.append("enthalpies"),
            BatchProperty::Entropy => msg.append("entropies"),
        }
        return Err(msg);
    }
    select_batch_model(model, fluid)
}

/// Decides a batch construction of states from pressure and enthalpy arrays.
pub fn plan_states_from_ph(n_pressures: usize, n_enthalpies: usize, model: &str, fluid: &str) -> (res:
    Result<ModelChoice, String>)
    ensures
        choice_view(res) == batch_plan(
            BatchProperty::Enthalpy,
            n_pressures as nat,
            n_enthalpies as nat,
            model@,
            fluid@,
        ),
{
    plan_batch(BatchProperty::Enthalpy, n_pressures, n_enthalpies, model, fluid)
}

/// Decides a batch construction of states from pressure and entropy arrays.
pub fn plan_states_from_ps(n_pressures: usize, n_entropies: usize, model: &str, fluid: &str) -> (res:
    Result<ModelChoice, String>)
    ensures
        choice_view(res) == batch_plan(
            BatchProperty::Entropy,
            n_pressures as nat,
            n_entropies as nat,
            model@,
            fluid@,
        ),
{
    plan_batch(BatchProperty::Entropy, n_pressures, n_entropies, model, fluid)
}

/// Text of the error for the state at `index` that could not be built.
pub fn state_failure_message(property: BatchProperty, index: usize, detail: &str) -> (res: String)
    ensures
        res@ == state_failure_text(property, index as nat, detail@),
{
    let mut msg = String::from_str("state_from(");
    match property {
        BatchProperty::Enthalpy => msg.append("P, h"),
        BatchProperty::Entropy => msg.append("P, s"),
    }
    msg.append(") failed at index ");
    append_decimal(&mut msg, index);
    msg.append(": ");
    msg.append(detail);
    msg
}

/// The batch interface chooses the model as the design-point facade does,
/// except that it refuses the perfect-gas model for any fluid but carbon
/// dioxide.
pub proof fn lemma_batch_agrees_with_design_point_choice(model: Seq<char>, fluid: Seq<char>)
    ensures
        (model != "PerfectGas"@ || fluid == "CarbonDioxide"@) ==> batch_choice(model, fluid)
            == crate::facade::design_point_choice(model, fluid),
        (model == "PerfectGas"@ && fluid != "CarbonDioxide"@) ==> batch_choice(model, fluid)
            == Err::<ModelChoice, Seq<char>>(perfect_gas_fluid_text(fluid)),
{
}

/// The length check comes before the model choice: arrays of different
/// lengths are refused whatever model and fluid the input names, and
/// arrays of equal lengths lead to the model choice.
pub proof fn lemma_length_check_precedes_model_choice(
    p: BatchProperty,
    n_pressures: nat,
    n_values: nat,
    model: Seq<char>,
    fluid: Seq<char>,
)
    ensures
        n_pressures != n_values ==> batch_plan(p, n_pressures, n_values, model, fluid) == Err::<
            ModelChoice,
            Seq<char>,
        >(length_mismatch_text(p, n_pressures, n_values)),
        n_pressures == n_values ==> batch_plan(p, n_pressures, n_values, model, fluid)
            == batch_choice(model, fluid),
{
}

} // verus!
