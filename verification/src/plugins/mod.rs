//! Plugin system for extending simulation capabilities: the interface a
//! plugin implements and the manager that loads them. The manager keeps no
//! plugins: it accepts every load and unload request and lists none.

use vstd::prelude::*;

use crate::errors::SimulationError;

verus! {

/// Plugin interface trait, implemented by the users of the library.
pub trait SimulationPlugin {
    /// Plugin name
    fn name(&self) -> &str;

    /// Plugin version
    fn version(&self) -> &str;

    /// Initialize the plugin
    fn initialize(&mut self) -> Result<(), SimulationError>;

    /// Cleanup plugin resources
    fn cleanup(&mut self) -> Result<(), SimulationError>;
}

/// Plugin manager for loading and managing plugins
pub struct PluginManager {}

impl PluginManager {
    /// Create a new plugin manager
    pub fn new() -> (r: Self) {
        PluginManager {}
    }

    /// Load a plugin from a file: accepted, with nothing loaded.
    pub fn load_plugin(&mut self, path: &str) -> (r: Result<(), SimulationError>)
        ensures
            r is Ok,
    {
        Ok(())
    }

    /// Unload a plugin: accepted, with nothing to unload.
    pub fn unload_plugin(&mut self, name: &str) -> (r: Result<(), SimulationError>)
        ensures
            r is Ok,
    {
        Ok(())
    }

    /// List loaded plugins: none.
    pub fn list_plugins(&self) -> (r: Vec<String>)
        ensures
            r@.len() == 0,
    {
        Vec::new()
    }
}

impl Default for PluginManager {
    fn default() -> (r: Self) {
        Self::new()
    }
}

} // verus!
