//! Run status reported by the desktop application, and the conversion of
//! its mesh form into the simulation's mesh configuration.

use vstd::prelude::*;

use crate::desktop::parameters::MeshParameters;
use crate::simulation::mesh::MeshPreset;
use crate::simulation::MeshConfig;
use crate::text::str_eq;

verus! {

/// Simulation execution status
#[derive(Debug, Clone)]
pub enum SimulationStatus {
    NotStarted,
    Initializing,
    Running,
    Completed,
    Failed(String),
    Cancelled,
}

/// The preset a mesh form's preset name selects: "fast", "balanced", "high"
/// or "custom", and the balanced preset for any other name.
pub open spec fn preset_named(name: Seq<char>) -> MeshPreset {
    if name == "fast"@ {
        MeshPreset::Fast
    } else if name == "balanced"@ {
        MeshPreset::Balanced
    } else if name == "high"@ {
        MeshPreset::High
    } else if name == "custom"@ {
        MeshPreset::Custom
    } else {
        MeshPreset::Balanced
    }
}

/// Each preset name of the mesh form selects the preset of that name, and
/// with it that preset's resolution: "fast" a 50x50 mesh, "balanced" and
/// "custom" 100x100 (the latter unless node counts are given), "high"
/// 200x200; any other name selects the balanced preset.
pub proof fn law_preset_names(name: Seq<char>)
    ensures
        name == "fast"@ ==> preset_named(name) == MeshPreset::Fast && preset_named(
            name,
        ).spec_resolution() == (50usize, 50usize),
        name == "balanced"@ ==> preset_named(name) == MeshPreset::Balanced && preset_named(
            name,
        ).spec_resolution() == (100usize, 100usize),
        name == "high"@ ==> preset_named(name) == MeshPreset::High && preset_named(
            name,
        ).spec_resolution() == (200usize, 200usize),
        name == "custom"@ ==> preset_named(name) == MeshPreset::Custom && preset_named(
            name,
        ).spec_resolution() == (100usize, 100usize),
        name != "fast"@ && name != "balanced"@ && name != "high"@ && name != "custom"@
            ==> preset_named(name) == MeshPreset::Balanced,
{
    reveal_strlit("fast");
    reveal_strlit("balanced");
    reveal_strlit("high");
    reveal_strlit("custom");
    assert("fast"@.len() == 4 && "high"@.len() == 4);
    assert("balanced"@.len() == 8 && "custom"@.len() == 6);
    assert("fast"@[0] != "high"@[0]);
}

/// Turns the mesh form into the simulation's mesh configuration: the preset
/// its name selects, and for the custom preset the form's node counts (each
/// converted with `as usize`) as the custom resolution.
pub fn convert_mesh_parameters(mesh: &MeshParameters) -> (r: MeshConfig)
    ensures
        r.preset == preset_named(mesh.preset@),
        r.custom_resolution == if mesh.preset@ == "custom"@ {
            Some((mesh.nr as usize, mesh.nz as usize))
        } else {
            None::<(usize, usize)>
        },
{
    proof {
        reveal_strlit("fast");
        reveal_strlit("balanced");
        reveal_strlit("high");
        reveal_strlit("custom");
        assert("fast"@.len() == 4 && "high"@.len() == 4);
        assert("balanced"@.len() == 8 && "custom"@.len() == 6);
        assert("fast"@[0] != "high"@[0]);
    }
    let name = mesh.preset.as_str();
    if str_eq(name, "fast") {
        MeshConfig { preset: MeshPreset::Fast, custom_resolution: None }
    } else if str_eq(name, "balanced") {
        MeshConfig { preset: MeshPreset::Balanced, custom_resolution: None }
    } else if str_eq(name, "high") {
        MeshConfig { preset: MeshPreset::High, custom_resolution: None }
    } else if str_eq(name, "custom") {
        let nr = mesh.nr as usize;
        let nz = mesh.nz as usize;
        MeshConfig { preset: MeshPreset::Custom, custom_resolution: Some((nr, nz)) }
    } else {
        MeshConfig { preset: MeshPreset::Balanced, custom_resolution: None }
    }
}

} // verus!
