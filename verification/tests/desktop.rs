use plasma_simulation::desktop::formula::get_constant_description;
use plasma_simulation::desktop::parameters::{parameter_template_index, MeshParameters};
use plasma_simulation::desktop::paths::same_path;
use plasma_simulation::desktop::project::{
    add_recent_file, find_project_template, validate_mesh_parameters, RecentFile,
};
use plasma_simulation::desktop::simulation::convert_mesh_parameters;
use plasma_simulation::simulation::mesh::MeshPreset;

#[test]
fn constant_descriptions() {
    assert_eq!(
        get_constant_description("PI").as_deref(),
        Some("Mathematical constant π (3.14159...)")
    );
    assert_eq!(
        get_constant_description("GAS_CONSTANT").as_deref(),
        Some("Universal gas constant (8.314 J/(mol·K))")
    );
    assert_eq!(get_constant_description("pi"), None);
    assert_eq!(get_constant_description("k0"), None);
}

fn mesh(preset: &str, nr: i32, nz: i32) -> MeshParameters {
    MeshParameters { preset: preset.to_string(), nr, nz }
}

#[test]
fn mesh_form_conversion() {
    let config = convert_mesh_parameters(&mesh("fast", 1, 2));
    assert_eq!(config.preset, MeshPreset::Fast);
    assert_eq!(config.custom_resolution, None);
    let config = convert_mesh_parameters(&mesh("high", 1, 2));
    assert_eq!(config.preset, MeshPreset::High);
    let config = convert_mesh_parameters(&mesh("custom", 30, 40));
    assert_eq!(config.preset, MeshPreset::Custom);
    assert_eq!(config.custom_resolution, Some((30, 40)));
    let config = convert_mesh_parameters(&mesh("something else", 30, 40));
    assert_eq!(config.preset, MeshPreset::Balanced);
    assert_eq!(config.custom_resolution, None);
}

#[test]
fn project_mesh_checks() {
    assert!(validate_mesh_parameters(&mesh("balanced", 100, 100)).is_ok());
    assert!(validate_mesh_parameters(&mesh("balanced", 10, 500)).is_ok());
    assert_eq!(
        validate_mesh_parameters(&mesh("balanced", 9, 5)),
        Err("Radial nodes must be between 10 and 500".to_string())
    );
    assert_eq!(
        validate_mesh_parameters(&mesh("balanced", 100, 501)),
        Err("Axial nodes must be between 10 and 500".to_string())
    );
    assert!(validate_mesh_parameters(&MeshParameters::default()).is_err());
}

fn entry(path: &str, at: i64) -> RecentFile {
    RecentFile { path: path.to_string(), name: format!("project {}", path), last_opened: at }
}

fn paths(list: &[RecentFile]) -> Vec<&str> {
    list.iter().map(|f| f.path.as_str()).collect()
}

#[test]
fn recent_files_move_to_front_without_duplicates() {
    let mut list = Vec::new();
    add_recent_file(&mut list, entry("a", 1));
    add_recent_file(&mut list, entry("b", 2));
    add_recent_file(&mut list, entry("c", 3));
    assert_eq!(paths(&list), vec!["c", "b", "a"]);
    add_recent_file(&mut list, entry("a", 4));
    assert_eq!(paths(&list), vec!["a", "c", "b"]);
    assert_eq!(list[0].last_opened, 4);
    add_recent_file(&mut list, entry("a", 5));
    assert_eq!(paths(&list), vec!["a", "c", "b"]);
}

#[test]
fn recent_files_compare_paths_by_components() {
    let mut list = Vec::new();
    add_recent_file(&mut list, entry("projects/a.json", 1));
    add_recent_file(&mut list, entry("/home/u/b.json", 2));
    add_recent_file(&mut list, entry("projects//a.json", 3));
    assert_eq!(paths(&list), vec!["projects//a.json", "/home/u/b.json"]);
    add_recent_file(&mut list, entry("/home/u/./b.json/", 4));
    assert_eq!(paths(&list), vec!["/home/u/./b.json/", "projects//a.json"]);
    add_recent_file(&mut list, entry("home/u/b.json", 5));
    assert_eq!(list.len(), 3);
}

#[test]
fn path_comparison() {
    assert!(same_path("a/b", "a//b"));
    assert!(same_path("a/b", "a/b/"));
    assert!(same_path("a/b", "a/./b"));
    assert!(same_path("a/b", "a/b/."));
    assert!(same_path("/a", "//a"));
    assert!(same_path("", ""));
    assert!(!same_path("a/b", "./a/b"));
    assert!(same_path("./a/b", ".//a/./b"));
    assert!(!same_path("/a/b", "a/b"));
    assert!(!same_path("a/../b", "b"));
    assert!(!same_path("a/b", "a/c"));
    assert!(!same_path("a/b", "a/b/c"));
    assert!(!same_path(".a", "a"));
}

#[test]
fn recent_files_keep_ten_entries() {
    let mut list = Vec::new();
    for k in 0..15 {
        add_recent_file(&mut list, entry(&format!("p{}", k), k));
    }
    assert_eq!(list.len(), 10);
    assert_eq!(list[0].path, "p14");
    assert_eq!(list[9].path, "p5");
}

#[test]
fn template_lookup() {
    assert_eq!(parameter_template_index("small_furnace"), Ok(0));
    assert_eq!(parameter_template_index("high_power"), Ok(2));
    assert_eq!(parameter_template_index("medical_waste"), Err("Unknown template: medical_waste".to_string()));
    assert_eq!(find_project_template("medical_waste"), Ok(3));
    assert_eq!(find_project_template("industrial_furnace"), Ok(1));
    assert_eq!(find_project_template("large_furnace"), Err("Template not found: large_furnace".to_string()));
}
