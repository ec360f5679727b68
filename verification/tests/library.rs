use plasma_simulation::{info, version};

#[test]
fn test_library_info() {
    let info = info();
    assert_eq!(info.name, "plasma_simulation");
    assert!(!info.version.is_empty());
    assert!(!info.description.is_empty());
}

#[test]
fn test_version() {
    let version = version();
    assert!(!version.is_empty());
}

#[test]
fn info_reports_the_version() {
    assert_eq!(info().version, version());
    assert_eq!(version(), "0.1.0");
}
