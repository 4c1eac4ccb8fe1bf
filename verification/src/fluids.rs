//! Additional fluid identifiers for CoolProp-backed calculations.
//!
//! Each type names a fluid of the CoolProp library: `BACKEND` is the
//! equation-of-state backend and `NAME` the fluid's CoolProp name.

use vstd::prelude::*;

verus! {

/// Canonical identifier for nitrogen (N₂).
#[derive(Debug, Clone, Copy, PartialEq, Eq, Default)]
pub struct Nitrogen;

impl Nitrogen {
    /// CoolProp backend used for nitrogen.
    pub const BACKEND: &'static str = "HEOS";

    /// CoolProp name of nitrogen.
    pub const NAME: &'static str = "Nitrogen";
}

/// Canonical identifier for helium (He).
#[derive(Debug, Clone, Copy, PartialEq, Eq, Default)]
pub struct Helium;

impl Helium {
    /// CoolProp backend used for helium.
    pub const BACKEND: &'static str = "HEOS";

    /// CoolProp name of helium.
    pub const NAME: &'static str = "Helium";
}

/// Canonical identifier for butane (C₄H₁₀).
#[derive(Debug, Clone, Copy, PartialEq, Eq, Default)]
pub struct Butane;

impl Butane {
    /// CoolProp backend used for butane.
    pub const BACKEND: &'static str = "HEOS";

    /// CoolProp name of butane.
    pub const NAME: &'static str = "Butane";
}

} // verus!
