//! The catalogue of predefined materials: which names it offers, in which
//! order, and how a name is looked up. The property values of each material
//! are floating-point data kept by the application.

use vstd::prelude::*;

use crate::errors::{ErrorView, SimulationError};
use crate::text::str_eq;

verus! {

/// The names of the predefined materials, in catalogue order.
pub open spec fn material_names() -> Seq<Seq<char>> {
    seq![
        "Carbon Steel"@,
        "Stainless Steel"@,
        "Aluminum"@,
        "Copper"@,
        "Iron"@,
        "Graphite"@,
        "Concrete"@,
        "Glass"@,
        "Wood"@,
        "Ceramic"@,
    ]
}

/// Predefined materials library
pub struct MaterialLibrary;

impl MaterialLibrary {
    /// List all available materials
    pub fn list_materials() -> (r: Vec<String>)
        ensures
            r@.len() == material_names().len(),
            forall|k: int| 0 <= k < r@.len() ==> (#[trigger] r@[k])@ == material_names()[k],
    {
        let mut names: Vec<String> = Vec::new();
        names.push(String::from_str("Carbon Steel"));
        names.push(String::from_str("Stainless Steel"));
        names.push(String::from_str("Aluminum"));
        names.push(String::from_str("Copper"));
        names.push(String::from_str("Iron"));
        names.push(String::from_str("Graphite"));
        names.push(String::from_str("Concrete"));
        names.push(String::from_str("Glass"));
        names.push(String::from_str("Wood"));
        names.push(String::from_str("Ceramic"));
        names
    }

    /// Position of `name` in the catalogue, or `None` when no predefined
    /// material has that name.
    pub fn material_index(name: &str) -> (r: Option<usize>)
        ensures
            r is None <==> !material_names().contains(name@),
            r matches Some(k) ==> k < material_names().len() && material_names()[k as int]
                == name@,
    {
        let names = Self::list_materials();
        let n = names.len();
        let mut k: usize = 0;
        while k < n
            invariant
                n == names@.len(),
                n == material_names().len(),
                k <= n,
                forall|m: int| 0 <= m < n ==> (#[trigger] names@[m])@ == material_names()[m],
                forall|m: int| 0 <= m < k ==> material_names()[m] != name@,
            decreases n - k,
        {
            if str_eq(names[k].as_str(), name) {
                return Some(k);
            }
            k = k + 1;
        }
        proof {
            assert forall|m: int| 0 <= m < material_names().len() implies material_names()[m]
                != name@ by {}
        }
        None
    }

    /// Looks `name` up in the catalogue: its position, or the material error
    /// that an unknown name gets.
    pub fn find_material(name: &str) -> (r: Result<usize, SimulationError>)
        ensures
            r is Ok <==> material_names().contains(name@),
            r matches Ok(k) ==> k < material_names().len() && material_names()[k as int] == name@,
            r matches Err(e) ==> e@ == (ErrorView::MaterialError {
                material: name@,
                property: "material"@,
                details: "Unknown material: "@ + name@,
            }),
    {
        match Self::material_index(name) {
            Some(k) => Ok(k),
            None => {
                let mut details = String::from_str("Unknown material: ");
                details.append(name);
                Err(
                    SimulationError::MaterialError {
                        material: String::from_str(name),
                        property: String::from_str("material"),
                        details,
                    },
                )
            },
        }
    }

    /// Validate material name
    pub fn is_valid_material(name: &str) -> (r: bool)
        ensures
            r == material_names().contains(name@),
    {
        Self::material_index(name).is_some()
    }
}

/// No two predefined materials share a name, so a name identifies one
/// catalogue entry.
pub proof fn law_material_names_distinct()
    ensures
        material_names().no_duplicates(),
{
    reveal_strlit("Carbon Steel");
    reveal_strlit("Stainless Steel");
    reveal_strlit("Aluminum");
    reveal_strlit("Copper");
    reveal_strlit("Iron");
    reveal_strlit("Graphite");
    reveal_strlit("Concrete");
    reveal_strlit("Glass");
    reveal_strlit("Wood");
    reveal_strlit("Ceramic");
    let s = material_names();
    assert(s[0][0] == 'C' && s[1][0] == 'S' && s[2][0] == 'A' && s[3][0] == 'C' && s[4][0] == 'I');
    assert(s[5][0] == 'G' && s[6][0] == 'C' && s[7][0] == 'G' && s[8][0] == 'W' && s[9][0] == 'C');
    assert(s[0][1] == 'a' && s[3][1] == 'o' && s[6][1] == 'o' && s[9][1] == 'e');
    assert(s[3][2] == 'p' && s[6][2] == 'n');
    assert(s[5][1] == 'r' && s[7][1] == 'l');
    assert forall|a: int, b: int| 0 <= a < s.len() && 0 <= b < s.len() && a != b implies s[a]
        != s[b] by {
        if s[a] == s[b] {
            assert(s[a][0] == s[b][0]);
        }
    }
}

} // verus!
