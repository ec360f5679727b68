use plasma_simulation::errors::SimulationError;
use plasma_simulation::simulation::physics::{check_torch_count, remove_torch};

fn invalid_parameter(result: Result<(), SimulationError>) -> (String, String, String) {
    match result {
        Err(SimulationError::InvalidParameter { parameter, value, range }) => (parameter, value, range),
        other => panic!("expected an invalid parameter error, got {:?}", other),
    }
}

#[test]
fn torch_count_must_be_positive() {
    assert!(check_torch_count(1).is_ok());
    assert!(check_torch_count(3).is_ok());
    assert_eq!(
        invalid_parameter(check_torch_count(0)),
        ("torches".to_string(), "0".to_string(), "≥ 1 torch required".to_string())
    );
}

#[test]
fn torch_management() {
    let mut torches = vec!["a", "b", "c"];
    assert_eq!(remove_torch(&mut torches, 1).unwrap(), "b");
    assert_eq!(torches, vec!["a", "c"]);

    let out_of_range = remove_torch(&mut torches, 5).map(|_| ());
    assert_eq!(
        invalid_parameter(out_of_range),
        ("torch index".to_string(), "5".to_string(), "0 to 1".to_string())
    );
    assert_eq!(torches, vec!["a", "c"]);

    assert_eq!(remove_torch(&mut torches, 0).unwrap(), "a");
    let last = remove_torch(&mut torches, 0).map(|_| ());
    assert_eq!(
        invalid_parameter(last),
        ("torch removal".to_string(), "last torch".to_string(), "at least 1 torch must remain".to_string())
    );
    assert_eq!(torches, vec!["c"]);

    let mut none: Vec<u8> = Vec::new();
    let empty = remove_torch(&mut none, 0).map(|_| ());
    assert_eq!(invalid_parameter(empty).2, "0 to 0");
}
