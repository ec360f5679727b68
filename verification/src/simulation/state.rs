//! Execution status of a simulation run.

use vstd::prelude::*;

verus! {

/// Simulation execution status
#[derive(Debug, Clone)]
pub enum SimulationStatus {
    NotStarted,
    Running,
    Completed,
    Failed(String),
    Cancelled,
}

impl Default for SimulationStatus {
    /// A run that has not started.
    fn default() -> (r: Self)
        ensures
            r is NotStarted,
    {
        SimulationStatus::NotStarted
    }
}

} // verus!
