//! Formula editor support of the desktop application: the records it shows
//! and the descriptions of the built-in constants.

use vstd::prelude::*;

use crate::text::str_eq;

verus! {

/// Formula validation result
#[derive(Debug, Clone)]
pub struct FormulaValidationResult {
    pub valid: bool,
    pub error: Option<String>,
    pub warnings: Vec<String>,
}

/// Formula information for UI display
#[derive(Debug, Clone)]
pub struct FormulaInfo {
    pub name: String,
    pub formula: String,
    pub description: Option<String>,
    /// "material" or "physics"
    pub category: String,
}

/// The description of a built-in constant, or `None` for any other name.
pub open spec fn constant_description(name: Seq<char>) -> Option<Seq<char>> {
    if name == "PI"@ {
        Some("Mathematical constant π (3.14159...)"@)
    } else if name == "E"@ {
        Some("Mathematical constant e (2.71828...)"@)
    } else if name == "SQRT_2"@ {
        Some("Square root of 2 (1.41421...)"@)
    } else if name == "LN_2"@ {
        Some("Natural logarithm of 2 (0.69314...)"@)
    } else if name == "LN_10"@ {
        Some("Natural logarithm of 10 (2.30258...)"@)
    } else if name == "STEFAN_BOLTZMANN"@ {
        Some("Stefan-Boltzmann constant (5.67e-8 W/(m²·K⁴))"@)
    } else if name == "BOLTZMANN"@ {
        Some("Boltzmann constant (1.38e-23 J/K)"@)
    } else if name == "AVOGADRO"@ {
        Some("Avogadro's number (6.02e23 mol⁻¹)"@)
    } else if name == "GAS_CONSTANT"@ {
        Some("Universal gas constant (8.314 J/(mol·K))"@)
    } else {
        None
    }
}

/// Get description for built-in constants
pub fn get_constant_description(name: &str) -> (r: Option<String>)
    ensures
        r is None <==> constant_description(name@) is None,
        r matches Some(d) ==> constant_description(name@) == Some(d@),
{
    let text = if str_eq(name, "PI") {
        "Mathematical constant π (3.14159...)"
    } else if str_eq(name, "E") {
        "Mathematical constant e (2.71828...)"
    } else if str_eq(name, "SQRT_2") {
        "Square root of 2 (1.41421...)"
    } else if str_eq(name, "LN_2") {
        "Natural logarithm of 2 (0.69314...)"
    } else if str_eq(name, "LN_10") {
        "Natural logarithm of 10 (2.30258...)"
    } else if str_eq(name, "STEFAN_BOLTZMANN") {
        "Stefan-Boltzmann constant (5.67e-8 W/(m²·K⁴))"
    } else if str_eq(name, "BOLTZMANN") {
        "Boltzmann constant (1.38e-23 J/K)"
    } else if str_eq(name, "AVOGADRO") {
        "Avogadro's number (6.02e23 mol⁻¹)"
    } else if str_eq(name, "GAS_CONSTANT") {
        "Universal gas constant (8.314 J/(mol·K))"
    } else {
        return None;
    };
    Some(String::from_str(text))
}

} // verus!
