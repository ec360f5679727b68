//! Formula subsystem: the checks a user formula passes before the sandboxed
//! Rhai engine evaluates it, and the reference lists shown in the formula
//! editor.

pub mod engine;
pub mod integration;
pub mod sandbox;
