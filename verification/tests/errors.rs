use plasma_simulation::errors::validation::{validate_mesh_resolution, validate_non_empty_string};
use plasma_simulation::errors::SimulationError;

#[test]
fn test_validation_mesh_resolution() {
    assert!(validate_mesh_resolution(50, 50).is_ok());
    assert!(validate_mesh_resolution(5, 50).is_err());
    assert!(validate_mesh_resolution(50, 5).is_err());
    assert!(validate_mesh_resolution(1500, 50).is_err());
}

fn mesh_reason(result: Result<(), SimulationError>) -> String {
    match result {
        Err(SimulationError::MeshGenerationError { reason }) => reason,
        other => panic!("expected a mesh generation error, got {:?}", other),
    }
}

#[test]
fn mesh_resolution_bounds_are_inclusive() {
    assert!(validate_mesh_resolution(10, 10).is_ok());
    assert!(validate_mesh_resolution(1000, 1000).is_ok());
    assert!(validate_mesh_resolution(9, 10).is_err());
    assert!(validate_mesh_resolution(10, 1001).is_err());
}

#[test]
fn mesh_resolution_reasons_name_both_counts() {
    assert_eq!(
        mesh_reason(validate_mesh_resolution(5, 50)),
        "Mesh resolution too low: 5x50, minimum is 10x10"
    );
    assert_eq!(
        mesh_reason(validate_mesh_resolution(1500, 50)),
        "Mesh resolution too high: 1500x50, maximum is 1000x1000"
    );
    // A low count is reported even when the other one is too high.
    assert_eq!(
        mesh_reason(validate_mesh_resolution(0, 123456)),
        "Mesh resolution too low: 0x123456, minimum is 10x10"
    );
}

#[test]
fn blank_names_are_refused() {
    assert!(validate_non_empty_string("steel", "material name").is_ok());
    assert!(validate_non_empty_string("  x ", "material name").is_ok());
    for blank in ["", "   ", "\t\n", "\u{00A0}\u{3000}"] {
        match validate_non_empty_string(blank, "material name") {
            Err(SimulationError::InvalidParameter { parameter, value, range }) => {
                assert_eq!(parameter, "material name");
                assert_eq!(value, "empty string");
                assert_eq!(range, "non-empty string");
            }
            other => panic!("expected an invalid parameter error, got {:?}", other),
        }
    }
}
