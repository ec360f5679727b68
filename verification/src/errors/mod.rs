//! Error type of the simulation library and the parameter checks that
//! produce it.

use vstd::prelude::*;

pub mod validation;

verus! {

/// Errors reported by the simulation library. Every field is the text that
/// the error message shows.
#[derive(Debug)]
pub enum SimulationError {
    InvalidParameter { parameter: String, value: String, range: String },
    MeshGenerationError { reason: String },
    FormulaError { formula: String, error: String },
    PhysicsError { operation: String, details: String },
    SolverError { method: String, reason: String },
    MaterialError { material: String, property: String, details: String },
    ConfigurationError { component: String, issue: String },
    VisualizationError { operation: String, details: String },
}

/// The contents of a [`SimulationError`]: its variant and the character
/// sequences of its fields.
pub enum ErrorView {
    InvalidParameter { parameter: Seq<char>, value: Seq<char>, range: Seq<char> },
    MeshGenerationError { reason: Seq<char> },
    FormulaError { formula: Seq<char>, error: Seq<char> },
    PhysicsError { operation: Seq<char>, details: Seq<char> },
    SolverError { method: Seq<char>, reason: Seq<char> },
    MaterialError { material: Seq<char>, property: Seq<char>, details: Seq<char> },
    ConfigurationError { component: Seq<char>, issue: Seq<char> },
    VisualizationError { operation: Seq<char>, details: Seq<char> },
}

impl View for SimulationError {
    type V = ErrorView;

    open spec fn view(&self) -> ErrorView {
        match self {
            SimulationError::InvalidParameter { parameter, value, range } => ErrorView::InvalidParameter {
                parameter: parameter@,
                value: value@,
                range: range@,
            },
            SimulationError::MeshGenerationError { reason } => ErrorView::MeshGenerationError {
                reason: reason@,
            },
            SimulationError::FormulaError { formula, error } => ErrorView::FormulaError {
                formula: formula@,
                error: error@,
            },
            SimulationError::PhysicsError { operation, details } => ErrorView::PhysicsError {
                operation: operation@,
                details: details@,
            },
            SimulationError::SolverError { method, reason } => ErrorView::SolverError {
                method: method@,
                reason: reason@,
            },
            SimulationError::MaterialError { material, property, details } => ErrorView::MaterialError {
                material: material@,
                property: property@,
                details: details@,
            },
            SimulationError::ConfigurationError { component, issue } => ErrorView::ConfigurationError {
                component: component@,
                issue: issue@,
            },
            SimulationError::VisualizationError { operation, details } => ErrorView::VisualizationError {
                operation: operation@,
                details: details@,
            },
        }
    }
}

} // verus!
