//! Screening of user formulas for the sandboxed Rhai engine: the text checks
//! of formula validation, the syntax check by the engine's parser, and the
//! list of functions the editor offers.

use vstd::prelude::*;

use crate::errors::{ErrorView, SimulationError};
use crate::formula::sandbox::{parse_script, rhai_parse, FormulaSandbox};
use crate::text::{chars_of, contains_chars, contains_run, is_blank, is_blank_str};

verus! {

/// Longest formula accepted, in bytes of its UTF-8 text.
pub const MAX_FORMULA_BYTES: usize = 1000;

/// Words whose presence (in any letter case) refuses a formula, in the
/// order they are checked.
pub open spec fn forbidden_patterns() -> Seq<Seq<char>> {
    seq![
        "import"@,
        "export"@,
        "eval"@,
        "while"@,
        "loop"@,
        "for"@,
        "fn "@,
        "function"@,
        "class"@,
        "struct"@,
        "impl"@,
    ]
}

/// `str::to_lowercase` of a text: its Unicode lowercase mapping.
pub uninterp spec fn lowercase(text: Seq<char>) -> Seq<char>;

/// Whether every character of `text` is ASCII.
pub open spec fn is_ascii_text(text: Seq<char>) -> bool {
    forall|i: int| 0 <= i < text.len() ==> (#[trigger] text[i] as u32) < 128
}

/// The ASCII lowercase of `c`: `A` to `Z` become `a` to `z`, any other
/// character stays.
pub open spec fn ascii_lower(c: char) -> char {
    if 'A' <= c && c <= 'Z' {
        ((c as u32) + 32) as char
    } else {
        c
    }
}

/// `text` with each character replaced by its ASCII lowercase.
pub open spec fn ascii_lowercase(text: Seq<char>) -> Seq<char> {
    Seq::new(text.len(), |i: int| ascii_lower(text[i]))
}

/// Lowercases `text` with `str::to_lowercase`. The result is named; of
/// Unicode's case tables only the ASCII part is restated: an ASCII text
/// maps character by character to its ASCII lowercase.
#[verifier::external_body]
fn to_lowercase(text: &str) -> (r: String)
    ensures
        r@ == lowercase(text@),
        is_ascii_text(text@) ==> r@ == ascii_lowercase(text@),
{
    text.to_lowercase()
}

/// The first forbidden pattern, from position `k` of the list on, that
/// occurs in `text`.
pub open spec fn first_forbidden_from(text: Seq<char>, k: int) -> Option<Seq<char>>
    decreases forbidden_patterns().len() - k,
{
    if k < 0 || k >= forbidden_patterns().len() {
        None
    } else if contains_run(text, forbidden_patterns()[k]) {
        Some(forbidden_patterns()[k])
    } else {
        first_forbidden_from(text, k + 1)
    }
}

/// Why a formula text is refused before parsing, if it is: blank, longer
/// than [`MAX_FORMULA_BYTES`] bytes, or holding a forbidden pattern once
/// lowercased; the checks apply in that order.
pub open spec fn screening_error(formula: Seq<char>, byte_len: nat) -> Option<Seq<char>> {
    if is_blank(formula) {
        Some("Formula is empty"@)
    } else if byte_len > MAX_FORMULA_BYTES {
        Some("Formula too long (max 1000 characters)"@)
    } else {
        match first_forbidden_from(lowercase(formula), 0) {
            Some(pattern) => Some("Forbidden pattern detected: "@ + pattern),
            None => None,
        }
    }
}

/// Whether a formula passes the blank and length checks: it holds a
/// character other than white space and its text is at most 1000 bytes.
pub open spec fn screening_ok(formula: Seq<char>, byte_len: nat) -> bool {
    !is_blank(formula) && byte_len <= 1000
}

/// What screening refuses, and with which message: a blank formula, one of
/// more than 1000 bytes, and one whose lowercase text holds one of the
/// words import, export, eval, while, loop, for, "fn ", function, class,
/// struct or impl, the first of them in that order being named. A formula
/// that passes the length and blank checks and holds none of these words
/// passes screening.
pub proof fn law_screening_refusals(formula: Seq<char>, byte_len: nat)
    ensures
        is_blank(formula) ==> screening_error(formula, byte_len) == Some("Formula is empty"@),
        !is_blank(formula) && byte_len > 1000 ==> screening_error(formula, byte_len) == Some(
            "Formula too long (max 1000 characters)"@,
        ),
        screening_ok(formula, byte_len) && contains_run(lowercase(formula), "import"@)
            ==> screening_error(formula, byte_len) == Some("Forbidden pattern detected: "@ + "import"@),
        screening_ok(formula, byte_len) && !contains_run(lowercase(formula), "import"@) && contains_run(lowercase(formula), "export"@)
            ==> screening_error(formula, byte_len) == Some("Forbidden pattern detected: "@ + "export"@),
        screening_ok(formula, byte_len) && !contains_run(lowercase(formula), "import"@) && !contains_run(lowercase(formula), "export"@) && contains_run(lowercase(formula), "eval"@)
            ==> screening_error(formula, byte_len) == Some("Forbidden pattern detected: "@ + "eval"@),
        screening_ok(formula, byte_len) && !contains_run(lowercase(formula), "import"@) && !contains_run(lowercase(formula), "export"@) && !contains_run(lowercase(formula), "eval"@) && contains_run(lowercase(formula), "while"@)
            ==> screening_error(formula, byte_len) == Some("Forbidden pattern detected: "@ + "while"@),
        screening_ok(formula, byte_len) && !contains_run(lowercase(formula), "import"@) && !contains_run(lowercase(formula), "export"@) && !contains_run(lowercase(formula), "eval"@) && !contains_run(lowercase(formula), "while"@) && contains_run(lowercase(formula), "loop"@)
            ==> screening_error(formula, byte_len) == Some("Forbidden pattern detected: "@ + "loop"@),
        screening_ok(formula, byte_len) && !contains_run(lowercase(formula), "import"@) && !contains_run(lowercase(formula), "export"@) && !contains_run(lowercase(formula), "eval"@) && !contains_run(lowercase(formula), "while"@) && !contains_run(lowercase(formula), "loop"@) && contains_run(lowercase(formula), "for"@)
            ==> screening_error(formula, byte_len) == Some("Forbidden pattern detected: "@ + "for"@),
        screening_ok(formula, byte_len) && !contains_run(lowercase(formula), "import"@) && !contains_run(lowercase(formula), "export"@) && !contains_run(lowercase(formula), "eval"@) && !contains_run(lowercase(formula), "while"@) && !contains_run(lowercase(formula), "loop"@) && !contains_run(lowercase(formula), "for"@) && contains_run(lowercase(formula), "fn "@)
            ==> screening_error(formula, byte_len) == Some("Forbidden pattern detected: "@ + "fn "@),
        screening_ok(formula, byte_len) && !contains_run(lowercase(formula), "import"@) && !contains_run(lowercase(formula), "export"@) && !contains_run(lowercase(formula), "eval"@) && !contains_run(lowercase(formula), "while"@) && !contains_run(lowercase(formula), "loop"@) && !contains_run(lowercase(formula), "for"@) && !contains_run(lowercase(formula), "fn "@) && contains_run(lowercase(formula), "function"@)
            ==> screening_error(formula, byte_len) == Some("Forbidden pattern detected: "@ + "function"@),
        screening_ok(formula, byte_len) && !contains_run(lowercase(formula), "import"@) && !contains_run(lowercase(formula), "export"@) && !contains_run(lowercase(formula), "eval"@) && !contains_run(lowercase(formula), "while"@) && !contains_run(lowercase(formula), "loop"@) && !contains_run(lowercase(formula), "for"@) && !contains_run(lowercase(formula), "fn "@) && !contains_run(lowercase(formula), "function"@) && contains_run(lowercase(formula), "class"@)
            ==> screening_error(formula, byte_len) == Some("Forbidden pattern detected: "@ + "class"@),
        screening_ok(formula, byte_len) && !contains_run(lowercase(formula), "import"@) && !contains_run(lowercase(formula), "export"@) && !contains_run(lowercase(formula), "eval"@) && !contains_run(lowercase(formula), "while"@) && !contains_run(lowercase(formula), "loop"@) && !contains_run(lowercase(formula), "for"@) && !contains_run(lowercase(formula), "fn "@) && !contains_run(lowercase(formula), "function"@) && !contains_run(lowercase(formula), "class"@) && contains_run(lowercase(formula), "struct"@)
            ==> screening_error(formula, byte_len) == Some("Forbidden pattern detected: "@ + "struct"@),
        screening_ok(formula, byte_len) && !contains_run(lowercase(formula), "import"@) && !contains_run(lowercase(formula), "export"@) && !contains_run(lowercase(formula), "eval"@) && !contains_run(lowercase(formula), "while"@) && !contains_run(lowercase(formula), "loop"@) && !contains_run(lowercase(formula), "for"@) && !contains_run(lowercase(formula), "fn "@) && !contains_run(lowercase(formula), "function"@) && !contains_run(lowercase(formula), "class"@) && !contains_run(lowercase(formula), "struct"@) && contains_run(lowercase(formula), "impl"@)
            ==> screening_error(formula, byte_len) == Some("Forbidden pattern detected: "@ + "impl"@),
        screening_ok(formula, byte_len) && !contains_run(lowercase(formula), "import"@) && !contains_run(lowercase(formula), "export"@) && !contains_run(lowercase(formula), "eval"@) && !contains_run(lowercase(formula), "while"@) && !contains_run(lowercase(formula), "loop"@) && !contains_run(lowercase(formula), "for"@) && !contains_run(lowercase(formula), "fn "@) && !contains_run(lowercase(formula), "function"@) && !contains_run(lowercase(formula), "class"@) && !contains_run(lowercase(formula), "struct"@) && !contains_run(lowercase(formula), "impl"@)
            ==> screening_error(formula, byte_len) is None,
{
    reveal_with_fuel(first_forbidden_from, 12);
}

/// The forbidden patterns as text, in checking order.
fn forbidden_pattern_list() -> (r: Vec<&'static str>)
    ensures
        r@.len() == forbidden_patterns().len(),
        forall|k: int| 0 <= k < r@.len() ==> (#[trigger] r@[k])@ == forbidden_patterns()[k],
{
    let mut patterns: Vec<&'static str> = Vec::new();
    patterns.push("import");
    patterns.push("export");
    patterns.push("eval");
    patterns.push("while");
    patterns.push("loop");
    patterns.push("for");
    patterns.push("fn ");
    patterns.push("function");
    patterns.push("class");
    patterns.push("struct");
    patterns.push("impl");
    patterns
}

/// The text checks of formula validation: refuses a blank formula, one of
/// more than [`MAX_FORMULA_BYTES`] bytes, and one holding a forbidden
/// pattern in any letter case, each with its message as a formula error.
pub fn screen_formula(formula: &str) -> (r: Result<(), SimulationError>)
    ensures
        is_ascii_text(formula@) ==> lowercase(formula@) == ascii_lowercase(formula@),
        r is Ok <==> screening_error(formula@, formula.len() as nat) is None,
        r matches Err(e) ==> screening_error(formula@, formula.len() as nat) matches Some(
            message,
        ) && e@ == (ErrorView::FormulaError { formula: formula@, error: message }),
{
    let lowered = to_lowercase(formula);
    if is_blank_str(formula) {
        return Err(
            SimulationError::FormulaError {
                formula: String::from_str(formula),
                error: String::from_str("Formula is empty"),
            },
        );
    }
    if formula.len() > MAX_FORMULA_BYTES {
        return Err(
            SimulationError::FormulaError {
                formula: String::from_str(formula),
                error: String::from_str("Formula too long (max 1000 characters)"),
            },
        );
    }
    let text = chars_of(lowered.as_str());
    let patterns = forbidden_pattern_list();
    let n = patterns.len();
    let mut k: usize = 0;
    while k < n
        invariant
            n == patterns@.len(),
            n == forbidden_patterns().len(),
            k <= n,
            text@ == lowercase(formula@),
            is_ascii_text(formula@) ==> lowercase(formula@) == ascii_lowercase(formula@),
            !is_blank(formula@),
            formula.len() <= MAX_FORMULA_BYTES,
            forall|q: int| 0 <= q < n ==> (#[trigger] patterns@[q])@ == forbidden_patterns()[q],
            first_forbidden_from(text@, 0) == first_forbidden_from(text@, k as int),
        decreases n - k,
    {
        let pattern = chars_of(patterns[k]);
        if contains_chars(&text, &pattern) {
            let mut message = String::from_str("Forbidden pattern detected: ");
            message.append(patterns[k]);
            return Err(
                SimulationError::FormulaError { formula: String::from_str(formula), error: message },
            );
        }
        k = k + 1;
    }
    Ok(())
}

/// The result of the syntax check of `formula` given the parser's outcome:
/// success, or a formula error whose text is "Syntax error: " followed by
/// the parser's message.
pub fn syntax_check_result(formula: &str, parsed: Result<(), String>) -> (r: Result<(), SimulationError>)
    ensures
        r is Ok <==> parsed is Ok,
        parsed matches Err(m) ==> r matches Err(e) && e@ == (ErrorView::FormulaError {
            formula: formula@,
            error: "Syntax error: "@ + m@,
        }),
{
    match parsed {
        Ok(()) => Ok(()),
        Err(m) => {
            let mut error = String::from_str("Syntax error: ");
            error.append(m.as_str());
            Err(SimulationError::FormulaError { formula: String::from_str(formula), error })
        },
    }
}

/// The checks of formula validation that precede a trial evaluation: the
/// text checks of [`screen_formula`], then parsing by the engine of
/// `sandbox`. A formula refused by the text checks is never parsed; one
/// that passes them is accepted exactly when it parses, and otherwise
/// refused with "Syntax error: " and the parser's message.
pub fn check_formula_syntax(sandbox: &FormulaSandbox, formula: &str) -> (r: Result<(), SimulationError>)
    ensures
        is_ascii_text(formula@) ==> lowercase(formula@) == ascii_lowercase(formula@),
        screening_error(formula@, formula.len() as nat) matches Some(message) ==> r matches Err(
            e,
        ) && e@ == (ErrorView::FormulaError { formula: formula@, error: message }),
        screening_error(formula@, formula.len() as nat) is None ==> (r is Ok <==> rhai_parse(
            sandbox@,
            formula@,
        ) is Ok),
        screening_error(formula@, formula.len() as nat) is None ==> (rhai_parse(
            sandbox@,
            formula@,
        ) matches Err(m) ==> r matches Err(e) && e@ == (ErrorView::FormulaError {
            formula: formula@,
            error: "Syntax error: "@ + m,
        })),
{
    screen_formula(formula)?;
    let parsed = parse_script(sandbox, formula);
    syntax_check_result(formula, parsed)
}

/// The functions and syntax the formula editor lists, in display order.
pub open spec fn available_function_names() -> Seq<Seq<char>> {
    seq![
        "abs(x)"@,
        "sqrt(x)"@,
        "x * x * x (use multiplication for powers)"@,
        "exp(x)"@,
        "ln(x)"@,
        "log(x)"@,
        "sin(x)"@,
        "cos(x)"@,
        "tan(x)"@,
        "floor(x)"@,
        "ceil(x)"@,
        "round(x)"@,
        "min(x, y)"@,
        "max(x, y)"@,
        "if condition { true_value } else { false_value }"@,
    ]
}

/// Get available functions for formulas
pub fn available_functions() -> (r: Vec<String>)
    ensures
        r@.len() == available_function_names().len(),
        forall|k: int| 0 <= k < r@.len() ==> (#[trigger] r@[k])@ == available_function_names()[k],
{
    let mut functions: Vec<String> = Vec::new();
    functions.push(String::from_str("abs(x)"));
    functions.push(String::from_str("sqrt(x)"));
    functions.push(String::from_str("x * x * x (use multiplication for powers)"));
    functions.push(String::from_str("exp(x)"));
    functions.push(String::from_str("ln(x)"));
    functions.push(String::from_str("log(x)"));
    functions.push(String::from_str("sin(x)"));
    functions.push(String::from_str("cos(x)"));
    functions.push(String::from_str("tan(x)"));
    functions.push(String::from_str("floor(x)"));
    functions.push(String::from_str("ceil(x)"));
    functions.push(String::from_str("round(x)"));
    functions.push(String::from_str("min(x, y)"));
    functions.push(String::from_str("max(x, y)"));
    functions.push(String::from_str("if condition { true_value } else { false_value }"));
    functions
}

} // verus!
