//! Plasma Furnace Simulator Library
//!
//! The verified core of a simulator of heat diffusion in cylindrical plasma
//! furnaces: parameter validation, the node topology of the axisymmetric
//! mesh, the material catalogue, formula screening, run status, and the
//! bookkeeping of the desktop application. The floating-point physics runs
//! in the application around this library.

use vstd::prelude::*;

pub mod desktop;
pub mod errors;
pub mod formula;
pub mod logging;
pub mod plugins;
pub mod simulation;
pub mod text;

verus! {

/// The library's package name.
pub open spec fn spec_name() -> Seq<char> {
    "plasma_simulation"@
}

/// The library's version.
pub open spec fn spec_version() -> Seq<char> {
    "0.1.0"@
}

/// Get the library version
pub fn version() -> (r: &'static str)
    ensures
        r@ == spec_version(),
        r@.len() > 0,
{
    proof {
        reveal_strlit("0.1.0");
    }
    "0.1.0"
}

/// Library information structure
#[derive(Debug, Clone, Copy)]
pub struct LibraryInfo {
    pub name: &'static str,
    pub version: &'static str,
    pub description: &'static str,
    pub authors: &'static str,
}

/// Get library information
pub fn info() -> (r: LibraryInfo)
    ensures
        r.name@ == spec_name(),
        r.version@ == spec_version(),
        r.description@ == "Plasma furnace heat diffusion simulator library"@,
        r.description@.len() > 0,
        r.authors@ == ""@,
{
    proof {
        reveal_strlit("Plasma furnace heat diffusion simulator library");
    }
    LibraryInfo {
        name: "plasma_simulation",
        version: version(),
        description: "Plasma furnace heat diffusion simulator library",
        authors: "",
    }
}

} // verus!
