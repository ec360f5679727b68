//! Logic of the desktop application's commands: parameter conversion,
//! project checks, formula descriptions and the status it reports.

pub mod formula;
pub mod parameters;
pub mod paths;
pub mod project;
pub mod simulation;
