//! Validation of simulation results: the manager that compares results with
//! reference data. Its error metrics are floating-point values computed by
//! the application.

use vstd::prelude::*;

verus! {

/// Validation manager
pub struct ValidationManager {}

impl ValidationManager {
    /// Create new validation manager
    pub fn new() -> (r: Self) {
        ValidationManager {}
    }
}

impl Default for ValidationManager {
    fn default() -> (r: Self) {
        Self::new()
    }
}

} // verus!
