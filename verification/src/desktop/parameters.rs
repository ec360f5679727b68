//! Mesh settings as the desktop application's parameter forms carry them.

use vstd::prelude::*;

use crate::text::{position_in, texts};

verus! {

/// Mesh parameters
#[derive(Debug, Clone)]
pub struct MeshParameters {
    /// Mesh preset: "fast", "balanced", "high", "custom"
    pub preset: String,
    /// Number of radial nodes
    pub nr: i32,
    /// Number of axial nodes
    pub nz: i32,
}

impl Default for MeshParameters {
    /// An empty preset name and zero nodes along both axes.
    fn default() -> (r: Self)
        ensures
            r.preset@ == Seq::<char>::empty(),
            r.nr == 0,
            r.nz == 0,
    {
        MeshParameters { preset: String::new(), nr: 0, nz: 0 }
    }
}

/// Identifiers of the parameter templates, in the order they are offered.
pub open spec fn parameter_template_ids() -> Seq<Seq<char>> {
    seq!["small_furnace"@, "large_furnace"@, "high_power"@]
}

/// Finds the parameter template named `template_id`: its position among
/// [`parameter_template_ids`], or the message for an unknown identifier.
pub fn parameter_template_index(template_id: &str) -> (r: Result<usize, String>)
    ensures
        r is Ok <==> parameter_template_ids().contains(template_id@),
        r matches Ok(k) ==> k < parameter_template_ids().len() && parameter_template_ids()[k as int]
            == template_id@,
        r matches Err(m) ==> m@ == "Unknown template: "@ + template_id@,
{
    let mut ids: Vec<&'static str> = Vec::new();
    ids.push("small_furnace");
    ids.push("large_furnace");
    ids.push("high_power");
    assert(texts(ids@) =~= parameter_template_ids());
    match position_in(&ids, template_id) {
        Some(k) => Ok(k),
        None => {
            let mut message = String::from_str("Unknown template: ");
            message.append(template_id);
            Err(message)
        },
    }
}

} // verus!
