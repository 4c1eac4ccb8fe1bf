//! The states around the simple recuperated cycle.

use vstd::prelude::*;

verus! {

/// Thermodynamic states around the cycle.
///
/// State ordering:
/// 1. Compressor inlet (precooler outlet)
/// 2. Compressor outlet
/// 3. Recuperator cold-side outlet (to primary heat exchanger)
/// 4. Primary heat exchanger outlet (turbine inlet)
/// 5. Turbine outlet (to recuperator hot side)
/// 6. Recuperator hot-side outlet (to precooler)
#[derive(Debug, Clone)]
pub struct CycleStates<S> {
    /// Compressor inlet (precooler outlet).
    pub s1: S,
    /// Compressor outlet.
    pub s2: S,
    /// Recuperator cold-side outlet (to primary heat exchanger).
    pub s3: S,
    /// Primary heat exchanger outlet (turbine inlet).
    pub s4: S,
    /// Turbine outlet (to recuperator hot side).
    pub s5: S,
    /// Recuperator hot-side outlet (to precooler).
    pub s6: S,
}

impl<S: Clone> CycleStates<S> {
    /// Returns the cycle states ordered from state 1 through state 6.
    ///
    /// Useful for plotting thermodynamic paths or generic post-processing
    /// that operates on the cycle as an ordered sequence of states.
    pub fn as_array(&self) -> (res: [S; 6])
        ensures
            cloned(self.s1, res[0]),
            cloned(self.s2, res[1]),
            cloned(self.s3, res[2]),
            cloned(self.s4, res[3]),
            cloned(self.s5, res[4]),
            cloned(self.s6, res[5]),
    {
        [
            self.s1.clone(),
            self.s2.clone(),
            self.s3.clone(),
            self.s4.clone(),
            self.s5.clone(),
            self.s6.clone(),
        ]
    }
}

} // verus!
