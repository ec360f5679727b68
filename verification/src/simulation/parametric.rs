//! Parametric studies: the manager that runs parameter sweeps. The study
//! configurations hold floating-point ranges and are handled by the
//! application.

use vstd::prelude::*;

verus! {

/// Parametric study manager
pub struct ParametricStudyManager {}

impl ParametricStudyManager {
    /// Create new parametric study manager
    pub fn new() -> (r: Self) {
        ParametricStudyManager {}
    }
}

impl Default for ParametricStudyManager {
    fn default() -> (r: Self) {
        Self::new()
    }
}

} // verus!
