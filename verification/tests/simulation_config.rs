use plasma_simulation::simulation::mesh::MeshPreset;
use plasma_simulation::simulation::state::SimulationStatus;
use plasma_simulation::simulation::{MaterialConfig, MeshConfig};

#[test]
fn test_mesh_config() {
    let mesh_config = MeshConfig::default();
    assert!(matches!(mesh_config.preset, MeshPreset::Fast));
    assert!(mesh_config.custom_resolution.is_none());
}

#[test]
fn mesh_config_resolution_prefers_custom() {
    assert_eq!(MeshConfig::default().resolution(), (50, 50));
    let config = MeshConfig { preset: MeshPreset::High, custom_resolution: Some((30, 70)) };
    assert_eq!(config.resolution(), (30, 70));
    let config = MeshConfig { preset: MeshPreset::High, custom_resolution: None };
    assert_eq!(config.resolution(), (200, 200));
}

#[test]
fn material_config_defaults_to_carbon_steel() {
    assert_eq!(MaterialConfig::default().material_name, "Carbon Steel");
}

#[test]
fn status_defaults_to_not_started() {
    assert!(matches!(SimulationStatus::default(), SimulationStatus::NotStarted));
}
