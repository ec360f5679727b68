use plasma_simulation::formula::integration::FormulaTable;
use plasma_simulation::errors::SimulationError;
use plasma_simulation::formula::engine::{available_functions, check_formula_syntax, screen_formula};
use plasma_simulation::formula::sandbox::{sandbox_limits, FormulaSandbox};

fn formula_error(result: Result<(), SimulationError>) -> String {
    match result {
        Err(SimulationError::FormulaError { error, .. }) => error,
        other => panic!("expected a formula error, got {:?}", other),
    }
}

#[test]
fn screening_refuses_empty_long_and_forbidden_formulas() {
    assert!(screen_formula("2.0 + 3.0").is_ok());
    assert_eq!(formula_error(screen_formula("")), "Formula is empty");
    assert_eq!(formula_error(screen_formula(" \t ")), "Formula is empty");
    let long = "1".repeat(1001);
    assert_eq!(formula_error(screen_formula(&long)), "Formula too long (max 1000 characters)");
    assert!(screen_formula(&"1".repeat(1000)).is_ok());
    assert_eq!(
        formula_error(screen_formula("import something")),
        "Forbidden pattern detected: import"
    );
    assert_eq!(formula_error(screen_formula("while true {}")), "Forbidden pattern detected: while");
}

#[test]
fn screening_ignores_letter_case() {
    assert_eq!(formula_error(screen_formula("EVAL(x)")), "Forbidden pattern detected: eval");
    assert_eq!(formula_error(screen_formula("Loop")), "Forbidden pattern detected: loop");
    // The first pattern in list order is reported.
    assert_eq!(formula_error(screen_formula("for x in export")), "Forbidden pattern detected: export");
}

#[test]
fn syntax_check_parses_with_the_engine() {
    let sandbox = FormulaSandbox::new(sandbox_limits());
    assert!(check_formula_syntax(&sandbox, "2.0 + 3.0").is_ok());
    assert!(check_formula_syntax(&sandbox, "if T > 500.0 { 1.0 } else { 2.0 }").is_ok());
    let error = formula_error(check_formula_syntax(&sandbox, "2.0 +"));
    assert!(error.starts_with("Syntax error: "));
    assert!(error.len() > "Syntax error: ".len());
    assert_eq!(formula_error(check_formula_syntax(&sandbox, "")), "Formula is empty");
    assert_eq!(
        formula_error(check_formula_syntax(&sandbox, "WHILE true {}")),
        "Forbidden pattern detected: while"
    );
}

#[test]
fn sandbox_limits_of_formulas() {
    let limits = sandbox_limits();
    assert_eq!(limits.max_operations, 10000);
    assert_eq!(limits.max_modules, 0);
    assert_eq!(limits.max_call_levels, 10);
    assert_eq!(limits.max_string_size, 1024);
    assert_eq!(limits.max_array_size, 100);
    assert_eq!(limits.max_map_size, 100);
    assert_eq!(limits.disabled_symbols, vec!["import", "export", "eval"]);
}

#[test]
fn sandbox_engine_refuses_disabled_symbols() {
    let sandbox = FormulaSandbox::new(sandbox_limits());
    // The screening never lets `eval` through, so ask the engine directly.
    assert!(sandbox.engine().compile("eval(\"1\")").is_err());
    assert!(rhai::Engine::new().compile("eval(\"1\")").is_ok());
    assert_eq!(sandbox.engine().max_operations(), 10000);
    assert_eq!(sandbox.engine().max_call_levels(), 10);
    assert_eq!(sandbox.engine().max_modules(), 0);
    assert_eq!(sandbox.engine().max_string_size(), 1024);
    assert_eq!(sandbox.engine().max_array_size(), 100);
    assert_eq!(sandbox.engine().max_map_size(), 100);
    for symbol in ["import", "export", "eval"] {
        assert!(sandbox.engine().is_symbol_disabled(symbol));
    }
    assert!(!sandbox.engine().is_symbol_disabled("if"));
}

#[test]
fn editor_lists_functions() {
    let functions = available_functions();
    assert_eq!(functions.len(), 15);
    assert_eq!(functions[0], "abs(x)");
    assert_eq!(functions[14], "if condition { true_value } else { false_value }");
}

#[test]
fn formula_table_gives_back_what_was_stored() {
    let mut table = FormulaTable::new();
    assert!(table.names().is_empty());
    table.insert("thermal_conductivity", "50.0 + 0.1 * T");
    assert_eq!(table.get("thermal_conductivity").map(|f| f.as_str()), Some("50.0 + 0.1 * T"));
    assert_eq!(table.get("specific_heat"), None);
    table.insert("specific_heat", "460.0");
    table.insert("thermal_conductivity", "40.0");
    assert_eq!(table.get("thermal_conductivity").map(|f| f.as_str()), Some("40.0"));
    let mut names = table.names();
    names.sort();
    assert_eq!(names, vec!["specific_heat".to_string(), "thermal_conductivity".to_string()]);
    assert!(table.remove("specific_heat"));
    assert!(!table.remove("specific_heat"));
    assert_eq!(table.get("specific_heat"), None);
    assert_eq!(table.names().len(), 1);
}
