//! Choice of the thermodynamic model and working fluid by name.
//!
//! Inputs name the model (`"PerfectGas"` or `"CoolProp"`) and the fluid
//! (`"CarbonDioxide"`, `"Nitrogen"`, `"Helium"` or `"Butane"`) as strings;
//! this module turns those names into a [`ModelChoice`] or the error text
//! that the solvers report.

use vstd::prelude::*;

use crate::fluids::{Butane, Helium, Nitrogen};
use crate::text::{concat2, str_eq};

verus! {

/// A working fluid that the CoolProp backend can be asked for.
#[derive(Debug, Clone, Copy, PartialEq, Eq, Structural)]
pub enum FluidChoice {
    CarbonDioxide,
    Nitrogen,
    Helium,
    Butane,
}

/// The thermodynamic model that a calculation runs on.
#[derive(Debug, Clone, Copy, PartialEq, Eq, Structural)]
pub enum ModelChoice {
    /// Perfect-gas carbon dioxide.
    PerfectGasCarbonDioxide,
    /// CoolProp with the given fluid.
    CoolProp(FluidChoice),
}

/// The name by which inputs select a fluid.
pub open spec fn fluid_name(f: FluidChoice) -> Seq<char> {
    match f {
        FluidChoice::CarbonDioxide => "CarbonDioxide"@,
        FluidChoice::Nitrogen => "Nitrogen"@,
        FluidChoice::Helium => "Helium"@,
        FluidChoice::Butane => "Butane"@,
    }
}

/// The fluid that a name selects, if any.
pub open spec fn fluid_named(name: Seq<char>) -> Option<FluidChoice> {
    if name == "CarbonDioxide"@ {
        Some(FluidChoice::CarbonDioxide)
    } else if name == "Nitrogen"@ {
        Some(FluidChoice::Nitrogen)
    } else if name == "Helium"@ {
        Some(FluidChoice::Helium)
    } else if name == "Butane"@ {
        Some(FluidChoice::Butane)
    } else {
        None
    }
}

/// Text of the error for a model name that is not known.
pub open spec fn unknown_model_text(model: Seq<char>) -> Seq<char> {
    "unknown model: "@ + model
}

/// Text of the error for a fluid name that is not known.
pub open spec fn unknown_fluid_text(fluid: Seq<char>) -> Seq<char> {
    "unknown fluid: "@ + fluid
}

/// The CoolProp part of a model choice: the fluid that `fluid` names.
pub open spec fn coolprop_choice(fluid: Seq<char>) -> Result<ModelChoice, Seq<char>> {
    match fluid_named(fluid) {
        Some(f) => Ok(ModelChoice::CoolProp(f)),
        None => Err(unknown_fluid_text(fluid)),
    }
}

/// A model choice, or an error, by its view.
pub open spec fn choice_view(r: Result<ModelChoice, String>) -> Result<ModelChoice, Seq<char>> {
    match r {
        Ok(c) => Ok(c),
        Err(e) => Err(e@),
    }
}

impl FluidChoice {
    /// The name by which inputs select this fluid.
    pub fn name(&self) -> (res: &'static str)
        ensures
            res@ == fluid_name(*self),
    {
        match self {
            FluidChoice::CarbonDioxide => "CarbonDioxide",
            FluidChoice::Nitrogen => Nitrogen::NAME,
            FluidChoice::Helium => Helium::NAME,
            FluidChoice::Butane => Butane::NAME,
        }
    }

    /// The fluid that `name` selects, or `None` for an unknown name.
    pub fn from_name(name: &str) -> (res: Option<FluidChoice>)
        ensures
            res == fluid_named(name@),
    {
        if str_eq(name, "CarbonDioxide") {
            Some(FluidChoice::CarbonDioxide)
        } else if str_eq(name, "Nitrogen") {
            Some(FluidChoice::Nitrogen)
        } else if str_eq(name, "Helium") {
            Some(FluidChoice::Helium)
        } else if str_eq(name, "Butane") {
            Some(FluidChoice::Butane)
        } else {
            None
        }
    }
}

/// Chooses the CoolProp fluid that `fluid` names.
pub fn choose_coolprop(fluid: &str) -> (res: Result<ModelChoice, String>)
    ensures
        choice_view(res) == coolprop_choice(fluid@),
{
    match FluidChoice::from_name(fluid) {
        Some(f) => Ok(ModelChoice::CoolProp(f)),
        None => Err(concat2("unknown fluid: ", fluid)),
    }
}

/// The names of the fluids are pairwise distinct.
proof fn lemma_fluid_names_distinct()
    ensures
        "CarbonDioxide"@ != "Nitrogen"@,
        "CarbonDioxide"@ != "Helium"@,
        "CarbonDioxide"@ != "Butane"@,
        "Nitrogen"@ != "Helium"@,
        "Nitrogen"@ != "Butane"@,
        "Helium"@ != "Butane"@,
{
    reveal_strlit("CarbonDioxide");
    reveal_strlit("Nitrogen");
    reveal_strlit("Helium");
    reveal_strlit("Butane");
    assert("CarbonDioxide"@[0] != "Nitrogen"@[0]);
    assert("CarbonDioxide"@[0] != "Helium"@[0]);
    assert("CarbonDioxide"@[0] != "Butane"@[0]);
    assert("Nitrogen"@[0] != "Helium"@[0]);
    assert("Nitrogen"@[0] != "Butane"@[0]);
    assert("Helium"@[0] != "Butane"@[0]);
}

/// Every fluid is selected by its own name, and a name selects a fluid only
/// when it is that fluid's name.
pub proof fn lemma_fluid_name_round_trip(f: FluidChoice, name: Seq<char>)
    ensures
        fluid_named(fluid_name(f)) == Some(f),
        fluid_named(name) == Some(f) ==> name == fluid_name(f),
{
    lemma_fluid_names_distinct();
}

/// The names by which inputs select the additional fluids are the CoolProp
/// names of their identifier types.
pub proof fn lemma_fluid_names_are_coolprop_names()
    ensures
        fluid_name(FluidChoice::Nitrogen) == Nitrogen::NAME@,
        fluid_name(FluidChoice::Helium) == Helium::NAME@,
        fluid_name(FluidChoice::Butane) == Butane::NAME@,
{
}

/// Text of the error for a thermodynamic model that could not be built.
pub open spec fn construction_failure_text(detail: Seq<char>) -> Seq<char> {
    "failed to construct thermodynamic model: "@ + detail
}

/// Text of the error for a thermodynamic model that could not be built.
pub fn construction_failure_message(detail: &str) -> (res: String)
    ensures
        res@ == construction_failure_text(detail@),
{
    concat2("failed to construct thermodynamic model: ", detail)
}

} // verus!
