//! Core simulation: configuration of the mesh and material, mesh topology,
//! the material catalogue, run status, and the managers of studies,
//! validation and visualization.

use vstd::prelude::*;

pub mod materials;
pub mod mesh;
pub mod parametric;
pub mod physics;
pub mod state;
pub mod validation;
pub mod visualization;

use crate::errors::{ErrorView, SimulationError};
use crate::simulation::materials::{material_names, MaterialLibrary};
use crate::simulation::mesh::MeshPreset;

verus! {

/// Mesh configuration
#[derive(Debug, Clone)]
pub struct MeshConfig {
    pub preset: MeshPreset,
    pub custom_resolution: Option<(usize, usize)>,
}

impl MeshConfig {
    /// The (nr, nz) resolution a configuration asks for: the custom one when
    /// given, otherwise that of the preset.
    pub open spec fn spec_resolution(self) -> (usize, usize) {
        match self.custom_resolution {
            Some(resolution) => resolution,
            None => self.preset.spec_resolution(),
        }
    }

    /// The (nr, nz) resolution the simulation builds its mesh with.
    pub fn resolution(&self) -> (r: (usize, usize))
        ensures
            r == self.spec_resolution(),
    {
        match self.custom_resolution {
            Some(resolution) => resolution,
            None => self.preset.resolution(),
        }
    }
}

impl Default for MeshConfig {
    /// The fast preset without a custom resolution.
    fn default() -> (r: Self)
        ensures
            r.preset == MeshPreset::Fast,
            r.custom_resolution is None,
    {
        MeshConfig { preset: MeshPreset::Fast, custom_resolution: None }
    }
}

/// Material configuration
#[derive(Debug, Clone)]
pub struct MaterialConfig {
    pub material_name: String,
}

impl MaterialConfig {
    /// The material check of a simulation configuration: the named material
    /// must be in the catalogue.
    pub fn validate(&self) -> (r: Result<(), SimulationError>)
        ensures
            r is Ok <==> material_names().contains(self.material_name@),
            r matches Err(e) ==> e@ == (ErrorView::MaterialError {
                material: self.material_name@,
                property: "material"@,
                details: "Unknown material name"@,
            }),
    {
        if MaterialLibrary::is_valid_material(self.material_name.as_str()) {
            Ok(())
        } else {
            Err(
                SimulationError::MaterialError {
                    material: self.material_name.clone(),
                    property: String::from_str("material"),
                    details: String::from_str("Unknown material name"),
                },
            )
        }
    }
}

impl Default for MaterialConfig {
    /// Carbon steel.
    fn default() -> (r: Self)
        ensures
            r.material_name@ == "Carbon Steel"@,
    {
        MaterialConfig { material_name: String::from_str("Carbon Steel") }
    }
}

} // verus!
