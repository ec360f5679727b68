use plasma_simulation::errors::SimulationError;
use plasma_simulation::simulation::MaterialConfig;
use plasma_simulation::simulation::materials::MaterialLibrary;

#[test]
fn catalogue_lists_ten_materials_in_order() {
    let materials = MaterialLibrary::list_materials();
    assert_eq!(materials.len(), 10);
    assert!(materials.contains(&"Carbon Steel".to_string()));
    assert!(materials.contains(&"Aluminum".to_string()));
    assert!(materials.contains(&"Copper".to_string()));
    assert_eq!(materials[0], "Carbon Steel");
    assert_eq!(materials[9], "Ceramic");
}

#[test]
fn material_lookup_by_name() {
    assert_eq!(MaterialLibrary::material_index("Carbon Steel"), Some(0));
    assert_eq!(MaterialLibrary::material_index("Wood"), Some(8));
    assert_eq!(MaterialLibrary::material_index("Unknown Material"), None);
    assert_eq!(MaterialLibrary::material_index("carbon steel"), None);
    assert!(MaterialLibrary::is_valid_material("Glass"));
    assert!(!MaterialLibrary::is_valid_material(""));
    for name in MaterialLibrary::list_materials() {
        assert!(MaterialLibrary::is_valid_material(&name));
    }
}

#[test]
fn unknown_material_errors() {
    assert_eq!(MaterialLibrary::find_material("Iron").unwrap(), 4);
    match MaterialLibrary::find_material("Unknown") {
        Err(SimulationError::MaterialError { material, property, details }) => {
            assert_eq!(material, "Unknown");
            assert_eq!(property, "material");
            assert_eq!(details, "Unknown material: Unknown");
        }
        other => panic!("unexpected {:?}", other),
    }
    assert!(MaterialConfig::default().validate().is_ok());
    let config = MaterialConfig { material_name: "Unknown Material".to_string() };
    match config.validate() {
        Err(SimulationError::MaterialError { details, .. }) => assert_eq!(details, "Unknown material name"),
        other => panic!("unexpected {:?}", other),
    }
}
