//! The sandbox that user formulas run in: the resource limits and disabled
//! symbols of the Rhai engine, and the engine built from them.

use vstd::prelude::*;

verus! {

/// Resource limits and disabled symbols of the formula engine.
pub struct SandboxLimits {
    /// Most operations one evaluation may perform.
    pub max_operations: u64,
    /// Most modules a script may import.
    pub max_modules: usize,
    /// Deepest nesting of function calls.
    pub max_call_levels: usize,
    /// Longest string, in bytes.
    pub max_string_size: usize,
    /// Longest array.
    pub max_array_size: usize,
    /// Largest object map.
    pub max_map_size: usize,
    /// Keywords and operators the engine refuses.
    pub disabled_symbols: Vec<String>,
}

/// The contents of a [`SandboxLimits`], the symbols as character sequences.
pub struct SandboxLimitsView {
    pub max_operations: u64,
    pub max_modules: usize,
    pub max_call_levels: usize,
    pub max_string_size: usize,
    pub max_array_size: usize,
    pub max_map_size: usize,
    pub disabled_symbols: Seq<Seq<char>>,
}

impl View for SandboxLimits {
    type V = SandboxLimitsView;

    open spec fn view(&self) -> SandboxLimitsView {
        SandboxLimitsView {
            max_operations: self.max_operations,
            max_modules: self.max_modules,
            max_call_levels: self.max_call_levels,
            max_string_size: self.max_string_size,
            max_array_size: self.max_array_size,
            max_map_size: self.max_map_size,
            disabled_symbols: self.disabled_symbols@.map_values(|s: String| s@),
        }
    }
}

/// The limits user formulas are evaluated under: 10000 operations, no
/// modules, 10 call levels, strings of 1024 bytes, arrays and maps of 100
/// items, and `import`, `export` and `eval` disabled.
pub open spec fn standard_sandbox() -> SandboxLimitsView {
    SandboxLimitsView {
        max_operations: 10000,
        max_modules: 0,
        max_call_levels: 10,
        max_string_size: 1024,
        max_array_size: 100,
        max_map_size: 100,
        disabled_symbols: seq!["import"@, "export"@, "eval"@],
    }
}

/// The limits user formulas are evaluated under.
pub fn sandbox_limits() -> (r: SandboxLimits)
    ensures
        r@ == standard_sandbox(),
{
    let mut disabled_symbols: Vec<String> = Vec::new();
    disabled_symbols.push(String::from_str("import"));
    disabled_symbols.push(String::from_str("export"));
    disabled_symbols.push(String::from_str("eval"));
    let r = SandboxLimits {
        max_operations: 10000,
        max_modules: 0,
        max_call_levels: 10,
        max_string_size: 1024,
        max_array_size: 100,
        max_map_size: 100,
        disabled_symbols,
    };
    assert(r@.disabled_symbols =~= standard_sandbox().disabled_symbols);
    r
}

/// `rhai::Engine`, the script engine; a value of it is carried, not
/// inspected.
#[verifier::external_type_specification]
#[verifier::external_body]
pub struct ExEngine(rhai::Engine);

/// The six numeric limits of an engine, as its getters `max_operations`,
/// `max_modules`, `max_call_levels`, `max_string_size`, `max_array_size`
/// and `max_map_size` report them, in that order.
pub uninterp spec fn engine_limits(engine: rhai::Engine) -> (u64, usize, usize, usize, usize, usize);

/// The symbols an engine has disabled (`Engine::disable_symbol`).
pub uninterp spec fn engine_disabled(engine: rhai::Engine) -> Set<Seq<char>>;

/// The numeric limits of `limits`, in the order of [`engine_limits`].
pub open spec fn numeric_limits_of(limits: SandboxLimitsView) -> (u64, usize, usize, usize, usize, usize) {
    (
        limits.max_operations,
        limits.max_modules,
        limits.max_call_levels,
        limits.max_string_size,
        limits.max_array_size,
        limits.max_map_size,
    )
}

/// A fresh `rhai::Engine` (`Engine::new`, which disables no symbol) with
/// the numeric limits of `limits` set by `set_max_operations`,
/// `set_max_modules`, `set_max_call_levels`, `set_max_string_size`,
/// `set_max_array_size` and `set_max_map_size`; each setter stores its
/// value, which the matching getter gives back.
#[verifier::external_body]
fn engine_with_limits(limits: &SandboxLimits) -> (r: rhai::Engine)
    ensures
        engine_limits(r) == numeric_limits_of(limits@),
        engine_disabled(r) == Set::<Seq<char>>::empty(),
{
    let mut engine = rhai::Engine::new();
    engine.set_max_operations(limits.max_operations);
    engine.set_max_modules(limits.max_modules);
    engine.set_max_call_levels(limits.max_call_levels);
    engine.set_max_string_size(limits.max_string_size);
    engine.set_max_array_size(limits.max_array_size);
    engine.set_max_map_size(limits.max_map_size);
    engine
}

/// Disables `symbol` in `engine` with `Engine::disable_symbol`, which adds
/// it to the engine's set of disabled symbols and changes no limit.
#[verifier::external_body]
fn disable_symbol(engine: &mut rhai::Engine, symbol: &str)
    ensures
        engine_disabled(*final(engine)) == engine_disabled(*old(engine)).insert(symbol@),
        engine_limits(*final(engine)) == engine_limits(*old(engine)),
{
    engine.disable_symbol(symbol);
}

/// A formula engine together with the limits it was built from: its
/// numeric limits are those of `limits`, and the symbols it disables are
/// exactly those listed there.
pub struct FormulaSandbox {
    limits: SandboxLimits,
    engine: rhai::Engine,
}

impl FormulaSandbox {
    /// The engine's numeric limits, in the order of [`engine_limits`].
    pub closed spec fn numeric_limits(&self) -> (u64, usize, usize, usize, usize, usize) {
        engine_limits(self.engine)
    }

    /// The symbols the engine disables.
    pub closed spec fn disabled(&self) -> Set<Seq<char>> {
        engine_disabled(self.engine)
    }

    /// The engine carries the settings of the limits it was built from.
    #[verifier::type_invariant]
    spec fn engine_matches_limits(&self) -> bool {
        &&& engine_limits(self.engine) == numeric_limits_of(self.limits@)
        &&& engine_disabled(self.engine) == self.limits@.disabled_symbols.to_set()
    }
}

impl View for FormulaSandbox {
    type V = SandboxLimitsView;

    closed spec fn view(&self) -> SandboxLimitsView {
        self.limits@
    }
}

/// What `rhai::Engine::compile` gives for `script` on the engine that
/// [`FormulaSandbox::new`] builds from limits with contents `limits`
/// (`Engine::new`, then those limits and disabled symbols): success, or the
/// text of the parse error.
pub uninterp spec fn rhai_parse(limits: SandboxLimitsView, script: Seq<char>) -> Result<(), Seq<char>>;

/// A parse outcome with its error message as a character sequence.
pub open spec fn outcome_text(r: Result<(), String>) -> Result<(), Seq<char>> {
    match r {
        Ok(()) => Ok(()),
        Err(m) => Err(m@),
    }
}

/// Parses `script` with `rhai::Engine::compile` on the engine of
/// `sandbox`, turning a parse error into its text (`to_string`). The result
/// is named by [`rhai_parse`] over the sandbox's limits and the script: the
/// engine is the one [`FormulaSandbox::new`] built from those limits, and
/// parsing depends on nothing else.
#[verifier::external_body]
pub(crate) fn parse_script(sandbox: &FormulaSandbox, script: &str) -> (r: Result<(), String>)
    ensures
        outcome_text(r) == rhai_parse(sandbox@, script@),
{
    match sandbox.engine.compile(script) {
        Ok(_) => Ok(()),
        Err(e) => Err(e.to_string()),
    }
}

impl FormulaSandbox {
    /// Builds the engine for `limits`: a fresh engine with its numeric
    /// limits, then each disabled symbol in turn.
    pub fn new(limits: SandboxLimits) -> (r: Self)
        ensures
            r@ == limits@,
            r.numeric_limits() == numeric_limits_of(limits@),
            r.disabled() == limits@.disabled_symbols.to_set(),
    {
        let mut engine = engine_with_limits(&limits);
        let ghost symbols = limits@.disabled_symbols;
        let n = limits.disabled_symbols.len();
        let mut k: usize = 0;
        proof {
            assert(symbols.take(0).to_set() =~= Set::<Seq<char>>::empty());
        }
        while k < n
            invariant
                n == limits.disabled_symbols@.len(),
                symbols == limits@.disabled_symbols,
                k <= n,
                engine_limits(engine) == numeric_limits_of(limits@),
                engine_disabled(engine) == symbols.take(k as int).to_set(),
            decreases n - k,
        {
            disable_symbol(&mut engine, limits.disabled_symbols[k].as_str());
            proof {
                assert(symbols.take(k + 1) =~= symbols.take(k as int).push(symbols[k as int]));
                symbols.take(k as int).lemma_push_to_set_commute(symbols[k as int]);
            }
            k = k + 1;
        }
        proof {
            assert(symbols.take(n as int) =~= symbols);
        }
        FormulaSandbox { limits, engine }
    }

    /// The engine, for evaluating formulas, with the sandbox's limits and
    /// disabled symbols.
    pub fn engine(&self) -> (r: &rhai::Engine)
        ensures
            engine_limits(*r) == self.numeric_limits(),
            engine_disabled(*r) == self.disabled(),
    {
        &self.engine
    }
}

} // verus!
