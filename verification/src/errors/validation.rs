//! Checks of common parameters: mesh resolution bounds and non-blank names.

use vstd::prelude::*;

use crate::errors::{ErrorView, SimulationError};
use crate::text::{decimal, decimal_string, is_blank, is_blank_str};

verus! {

/// Smallest number of nodes allowed along either mesh axis.
pub const MIN_MESH_NODES: usize = 10;

/// Largest number of nodes allowed along either mesh axis.
pub const MAX_MESH_NODES: usize = 1000;

/// Whether a mesh of `nr` radial by `nz` axial nodes is within the allowed
/// resolution.
pub open spec fn resolution_in_range(nr: nat, nz: nat) -> bool {
    &&& MIN_MESH_NODES <= nr <= MAX_MESH_NODES
    &&& MIN_MESH_NODES <= nz <= MAX_MESH_NODES
}

/// The reason given when a mesh of `nr` by `nz` nodes is refused: a low
/// count is reported before a high one.
pub open spec fn resolution_error_reason(nr: nat, nz: nat) -> Seq<char> {
    if nr < MIN_MESH_NODES || nz < MIN_MESH_NODES {
        "Mesh resolution too low: "@ + decimal(nr) + "x"@ + decimal(nz) + ", minimum is 10x10"@
    } else {
        "Mesh resolution too high: "@ + decimal(nr) + "x"@ + decimal(nz)
            + ", maximum is 1000x1000"@
    }
}

/// A mesh resolution is accepted exactly when each axis has between 10 and
/// 1000 nodes; a refused one is reported as too low when either count is
/// under 10, and as too high otherwise.
pub proof fn law_mesh_resolution_bounds(nr: nat, nz: nat)
    ensures
        resolution_in_range(nr, nz) <==> (10 <= nr <= 1000 && 10 <= nz <= 1000),
        (nr < 10 || nz < 10) ==> resolution_error_reason(nr, nz) == "Mesh resolution too low: "@
            + decimal(nr) + "x"@ + decimal(nz) + ", minimum is 10x10"@,
        (nr >= 10 && nz >= 10) ==> resolution_error_reason(nr, nz) == "Mesh resolution too high: "@
            + decimal(nr) + "x"@ + decimal(nz) + ", maximum is 1000x1000"@,
{
}

/// Accepts a mesh resolution of at least 10 and at most 1000 nodes along
/// each axis; otherwise reports a mesh generation error naming both counts.
pub fn validate_mesh_resolution(nr: usize, nz: usize) -> (r: Result<(), SimulationError>)
    ensures
        r is Ok <==> resolution_in_range(nr as nat, nz as nat),
        r matches Err(e) ==> e@ == (ErrorView::MeshGenerationError {
            reason: resolution_error_reason(nr as nat, nz as nat),
        }),
{
    let low = nr < MIN_MESH_NODES || nz < MIN_MESH_NODES;
    let high = nr > MAX_MESH_NODES || nz > MAX_MESH_NODES;
    if !low && !high {
        return Ok(());
    }
    let mut reason = if low {
        String::from_str("Mesh resolution too low: ")
    } else {
        String::from_str("Mesh resolution too high: ")
    };
    let nr_text = decimal_string(nr);
    let nz_text = decimal_string(nz);
    reason.append(nr_text.as_str());
    reason.append("x");
    reason.append(nz_text.as_str());
    if low {
        reason.append(", minimum is 10x10");
    } else {
        reason.append(", maximum is 1000x1000");
    }
    Err(SimulationError::MeshGenerationError { reason })
}

/// Accepts a text that holds a character other than white space; a blank
/// one is reported as an invalid parameter named `name`.
pub fn validate_non_empty_string(value: &str, name: &str) -> (r: Result<(), SimulationError>)
    ensures
        r is Ok <==> !is_blank(value@),
        r matches Err(e) ==> e@ == (ErrorView::InvalidParameter {
            parameter: name@,
            value: "empty string"@,
            range: "non-empty string"@,
        }),
{
    if is_blank_str(value) {
        Err(
            SimulationError::InvalidParameter {
                parameter: String::from_str(name),
                value: String::from_str("empty string"),
                range: String::from_str("non-empty string"),
            },
        )
    } else {
        Ok(())
    }
}

} // verus!
