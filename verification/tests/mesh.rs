use plasma_simulation::simulation::mesh::{BoundaryType, CylindricalMesh, Direction, MeshPreset};

#[test]
fn test_mesh_creation() {
    let mesh = CylindricalMesh::new(50, 100).unwrap();
    assert_eq!(mesh.nr, 50);
    assert_eq!(mesh.nz, 100);
    assert!(mesh.validate().is_ok());
}

#[test]
fn test_mesh_neighbors() {
    let mesh = CylindricalMesh::new(10, 10).unwrap();

    // Interior node should have 4 neighbors
    let neighbors = mesh.get_neighbors(5, 5);
    assert_eq!(neighbors.len(), 4);

    // Corner node should have 2 neighbors
    let corner_neighbors = mesh.get_neighbors(0, 0);
    assert_eq!(corner_neighbors.len(), 2);

    // Edge node should have 3 neighbors
    let edge_neighbors = mesh.get_neighbors(5, 0);
    assert_eq!(edge_neighbors.len(), 3);
}

#[test]
fn test_boundary_detection() {
    let mesh = CylindricalMesh::new(10, 10).unwrap();

    assert!(mesh.is_on_axis(0, 5));
    assert!(!mesh.is_on_axis(1, 5));

    assert!(mesh.is_on_outer_boundary(9, 5));
    assert!(!mesh.is_on_outer_boundary(8, 5));

    assert!(mesh.is_on_bottom_boundary(5, 0));
    assert!(!mesh.is_on_bottom_boundary(5, 1));

    assert!(mesh.is_on_top_boundary(5, 9));
    assert!(!mesh.is_on_top_boundary(5, 8));

    assert_eq!(mesh.get_boundary_type(0, 5), BoundaryType::Axis);
    assert_eq!(mesh.get_boundary_type(9, 5), BoundaryType::OuterWall);
    assert_eq!(mesh.get_boundary_type(5, 0), BoundaryType::Bottom);
    assert_eq!(mesh.get_boundary_type(5, 9), BoundaryType::Top);
    assert_eq!(mesh.get_boundary_type(5, 5), BoundaryType::Interior);
}

#[test]
fn test_neighbors_with_direction() {
    let mesh = CylindricalMesh::new(10, 10).unwrap();
    let neighbors = mesh.get_neighbors_with_direction(5, 5);

    assert_eq!(neighbors.len(), 4);

    let directions: Vec<Direction> = neighbors.iter().map(|(_, dir)| *dir).collect();
    assert!(directions.contains(&Direction::RadialInner));
    assert!(directions.contains(&Direction::RadialOuter));
    assert!(directions.contains(&Direction::AxialLower));
    assert!(directions.contains(&Direction::AxialUpper));
}

#[test]
fn test_mesh_presets() {
    let preset = MeshPreset::Fast;
    let (nr, nz) = preset.resolution();
    assert_eq!(nr, 50);
    assert_eq!(nz, 50);

    let mesh = preset.create_mesh().unwrap();
    assert_eq!(mesh.nr, 50);
    assert_eq!(mesh.nz, 50);
}

#[test]
fn test_mesh_validation_errors() {
    assert!(CylindricalMesh::new(5, 50).is_err());
    assert!(CylindricalMesh::new(50, 5).is_err());
}

#[test]
fn neighbors_come_in_fixed_order() {
    let mesh = CylindricalMesh::new(10, 12).unwrap();
    assert_eq!(mesh.get_neighbors(5, 5), vec![(4, 5), (6, 5), (5, 4), (5, 6)]);
    assert_eq!(mesh.get_neighbors(9, 11), vec![(8, 11), (9, 10)]);
    assert_eq!(
        mesh.get_neighbors_with_direction(0, 0),
        vec![((1, 0), Direction::RadialOuter), ((0, 1), Direction::AxialUpper)]
    );
}

#[test]
fn neighbor_relation_is_symmetric_on_a_small_mesh() {
    let mesh = CylindricalMesh::new(10, 11).unwrap();
    for i in 0..mesh.nr {
        for j in 0..mesh.nz {
            let around = mesh.get_neighbors(i, j);
            assert_eq!(around.len() == 4, mesh.get_boundary_type(i, j) == BoundaryType::Interior);
            for &(a, b) in &around {
                assert!(a < mesh.nr && b < mesh.nz);
                assert!(mesh.get_neighbors(a, b).contains(&(i, j)));
            }
        }
    }
}

#[test]
fn axis_wins_over_other_boundaries() {
    let mesh = CylindricalMesh::new(10, 10).unwrap();
    assert_eq!(mesh.get_boundary_type(0, 0), BoundaryType::Axis);
    assert_eq!(mesh.get_boundary_type(9, 0), BoundaryType::OuterWall);
    assert_eq!(mesh.get_boundary_type(9, 9), BoundaryType::OuterWall);
    assert_eq!(mesh.total_nodes(), 100);
}

#[test]
fn every_preset_builds_a_mesh() {
    for (preset, size) in [
        (MeshPreset::Fast, 50),
        (MeshPreset::Balanced, 100),
        (MeshPreset::High, 200),
        (MeshPreset::Custom, 100),
    ] {
        let mesh = preset.create_mesh().unwrap();
        assert_eq!((mesh.nr, mesh.nz), (size, size));
    }
}

#[test]
fn boundary_nodes_copy_from_inward_neighbors() {
    let mesh = CylindricalMesh::new(10, 12).unwrap();
    assert_eq!(mesh.boundary_source(0, 5), Some((1, 5)));
    assert_eq!(mesh.boundary_source(0, 0), Some((1, 0)));
    assert_eq!(mesh.boundary_source(4, 0), Some((4, 1)));
    assert_eq!(mesh.boundary_source(4, 11), Some((4, 10)));
    assert_eq!(mesh.boundary_source(9, 0), None);
    assert_eq!(mesh.boundary_source(4, 5), None);
}

#[test]
fn boundary_type_on_degenerate_grids() {
    // The axis and the bottom are recognised without consulting the far ends.
    let empty = CylindricalMesh { nr: 0, nz: 0 };
    assert_eq!(empty.get_boundary_type(0, 3), BoundaryType::Axis);
    assert_eq!(empty.boundary_source(0, 3), None);
    let flat = CylindricalMesh { nr: 3, nz: 0 };
    assert_eq!(flat.get_boundary_type(1, 0), BoundaryType::Bottom);
    assert_eq!(flat.get_boundary_type(2, 0), BoundaryType::OuterWall);
    assert_eq!(flat.boundary_source(1, 0), None);
}
