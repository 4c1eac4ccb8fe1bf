//! The states around the recompression cycle.

use vstd::prelude::*;

verus! {

/// Thermodynamic states around the recompression cycle.
///
/// State ordering:
///  1. Main compressor inlet / precooler outlet
///  2. Main compressor outlet / LT recuperator cold inlet
///  3. LT recuperator cold outlet / mixing valve inlet (main compressor side)
///  4. Mixing valve outlet / HT recuperator cold inlet
///  5. HT recuperator cold outlet / PHX inlet
///  6. PHX outlet / turbine inlet
///  7. Turbine outlet / HT recuperator hot inlet
///  8. HT recuperator hot outlet / LT recuperator hot inlet
///  9. LT recuperator hot outlet / precooler and recompressor inlet
/// 10. Recompressor outlet / mixing valve inlet (recompressor side)
#[derive(Debug, Clone)]
pub struct CycleStates<S> {
    /// Main compressor inlet (precooler outlet).
    pub s1: S,
    /// Main compressor outlet (LT recuperator cold inlet).
    pub s2: S,
    /// LT recuperator cold outlet (mixing valve inlet, main compressor side).
    pub s3: S,
    /// Mixing valve outlet (HT recuperator cold inlet).
    pub s4: S,
    /// HT recuperator cold outlet (PHX inlet).
    pub s5: S,
    /// PHX outlet (turbine inlet).
    pub s6: S,
    /// Turbine outlet (HT recuperator hot inlet).
    pub s7: S,
    /// HT recuperator hot outlet (LT recuperator hot inlet).
    pub s8: S,
    /// LT recuperator hot outlet (precooler and recompressor inlet).
    pub s9: S,
    /// Recompressor outlet (mixing valve inlet, recompressor side).
    pub s10: S,
}

} // verus!
