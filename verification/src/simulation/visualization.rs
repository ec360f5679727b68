//! Visualization: the manager that prepares 3D rendering data. The data
//! itself is floating-point and prepared by the application.

use vstd::prelude::*;

verus! {

/// Visualization data manager
pub struct VisualizationManager {}

impl VisualizationManager {
    /// Create new visualization manager
    pub fn new() -> (r: Self) {
        VisualizationManager {}
    }
}

impl Default for VisualizationManager {
    fn default() -> (r: Self) {
        Self::new()
    }
}

} // verus!
