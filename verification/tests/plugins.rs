use plasma_simulation::plugins::PluginManager;

#[test]
fn test_plugin_manager_creation() {
    let manager = PluginManager::new();
    assert!(manager.list_plugins().is_empty());
}

#[test]
fn plugin_requests_are_accepted_without_loading() {
    let mut manager = PluginManager::default();
    assert!(manager.load_plugin("/tmp/plugin.so").is_ok());
    assert!(manager.unload_plugin("plugin").is_ok());
    assert!(manager.list_plugins().is_empty());
}
