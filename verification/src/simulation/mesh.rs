//! Node topology of the axisymmetric (r, z) mesh: which nodes border which,
//! in which direction, and which boundary of the furnace a node lies on.
//!
//! Node `(i, j)` is the `i`-th node along the radius (`i == 0` on the axis)
//! and the `j`-th node along the height (`j == 0` at the bottom).

use vstd::prelude::*;

use crate::errors::validation::{resolution_error_reason, resolution_in_range, validate_mesh_resolution};
use crate::errors::{ErrorView, SimulationError};

verus! {

/// Boundary types for cylindrical mesh
#[derive(Debug, Clone, Copy, PartialEq, Eq, Structural)]
pub enum BoundaryType {
    /// Interior node (not on any boundary)
    Interior,
    /// On the axis of symmetry (r = 0)
    Axis,
    /// On the outer cylindrical wall (r = R_max)
    OuterWall,
    /// On the bottom surface (z = 0)
    Bottom,
    /// On the top surface (z = H_max)
    Top,
}

/// Direction for neighbor identification in finite difference calculations
#[derive(Debug, Clone, Copy, PartialEq, Eq, Structural)]
pub enum Direction {
    /// Radial direction towards center (decreasing r)
    RadialInner,
    /// Radial direction towards outer boundary (increasing r)
    RadialOuter,
    /// Axial direction towards bottom (decreasing z)
    AxialLower,
    /// Axial direction towards top (increasing z)
    AxialUpper,
}

/// A mesh node: (radial index, axial index).
pub type Node = (usize, usize);

/// Whether moving one step in `dir` from `from` reaches `to`.
pub open spec fn steps_to(dir: Direction, from: Node, to: Node) -> bool {
    match dir {
        Direction::RadialInner => to.0 + 1 == from.0 && to.1 == from.1,
        Direction::RadialOuter => to.0 == from.0 + 1 && to.1 == from.1,
        Direction::AxialLower => to.0 == from.0 && to.1 + 1 == from.1,
        Direction::AxialUpper => to.0 == from.0 && to.1 == from.1 + 1,
    }
}

/// Whether two nodes differ by exactly one step along one axis.
pub open spec fn adjacent(p: Node, q: Node) -> bool {
    ||| p.0 + 1 == q.0 && p.1 == q.1
    ||| q.0 + 1 == p.0 && p.1 == q.1
    ||| p.0 == q.0 && p.1 + 1 == q.1
    ||| p.0 == q.0 && q.1 + 1 == p.1
}

/// The grid of an axisymmetric mesh with `nr` radial and `nz` axial nodes.
#[derive(Debug, Clone)]
pub struct CylindricalMesh {
    pub nr: usize,
    pub nz: usize,
}

impl CylindricalMesh {
    /// A mesh as [`CylindricalMesh::new`] builds it: a resolution within bounds.
    pub open spec fn well_formed(&self) -> bool {
        resolution_in_range(self.nr as nat, self.nz as nat)
    }

    /// Whether `p` is a node of this mesh.
    pub open spec fn contains(&self, p: Node) -> bool {
        p.0 < self.nr && p.1 < self.nz
    }

    /// The neighbors of `(i, j)` with their directions, in the order radial
    /// inner, radial outer, axial lower, axial upper; a neighbor is listed
    /// only where the step stays within the mesh's index range.
    pub open spec fn neighbor_list(&self, i: usize, j: usize) -> Seq<(Node, Direction)> {
        let inner: Seq<(Node, Direction)> = if i > 0 {
            seq![(((i - 1) as usize, j), Direction::RadialInner)]
        } else {
            seq![]
        };
        let outer: Seq<(Node, Direction)> = if i + 1 < self.nr {
            seq![(((i + 1) as usize, j), Direction::RadialOuter)]
        } else {
            seq![]
        };
        let lower: Seq<(Node, Direction)> = if j > 0 {
            seq![((i, (j - 1) as usize), Direction::AxialLower)]
        } else {
            seq![]
        };
        let upper: Seq<(Node, Direction)> = if j + 1 < self.nz {
            seq![((i, (j + 1) as usize), Direction::AxialUpper)]
        } else {
            seq![]
        };
        inner + outer + lower + upper
    }

    /// The neighbor nodes of `(i, j)`, in the order of [`Self::neighbor_list`].
    pub open spec fn neighbor_nodes(&self, i: usize, j: usize) -> Seq<Node> {
        self.neighbor_list(i, j).map_values(|e: (Node, Direction)| e.0)
    }

    /// The boundary a node is classified under; the axis takes precedence
    /// over the outer wall, which takes precedence over the bottom, then the top.
    pub open spec fn boundary_type_of(&self, i: usize, j: usize) -> BoundaryType {
        if i == 0 {
            BoundaryType::Axis
        } else if i + 1 == self.nr {
            BoundaryType::OuterWall
        } else if j == 0 {
            BoundaryType::Bottom
        } else if j + 1 == self.nz {
            BoundaryType::Top
        } else {
            BoundaryType::Interior
        }
    }

    /// Builds the grid of an `nr` by `nz` mesh after checking its resolution.
    pub fn new(nr: usize, nz: usize) -> (r: Result<CylindricalMesh, SimulationError>)
        ensures
            r is Ok <==> resolution_in_range(nr as nat, nz as nat),
            r matches Ok(m) ==> m.nr == nr && m.nz == nz && m.well_formed(),
            r matches Err(e) ==> e@ == (ErrorView::MeshGenerationError {
                reason: resolution_error_reason(nr as nat, nz as nat),
            }),
    {
        match validate_mesh_resolution(nr, nz) {
            Ok(()) => Ok(CylindricalMesh { nr, nz }),
            Err(e) => Err(e),
        }
    }

    /// Get neighbor indices for position (i, j)
    /// Returns neighbors in order: [radial_inner, radial_outer, axial_lower, axial_upper]
    pub fn get_neighbors(&self, i: usize, j: usize) -> (r: Vec<Node>)
        requires
            self.nr >= 1,
            self.nz >= 1,
        ensures
            r@ == self.neighbor_nodes(i, j),
    {
        let mut neighbors: Vec<Node> = Vec::new();
        if i > 0 {
            neighbors.push((i - 1, j));
        }
        if i < self.nr - 1 {
            neighbors.push((i + 1, j));
        }
        if j > 0 {
            neighbors.push((i, j - 1));
        }
        if j < self.nz - 1 {
            neighbors.push((i, j + 1));
        }
        assert(neighbors@ =~= self.neighbor_nodes(i, j));
        neighbors
    }

    /// Get neighbor with direction information for finite difference calculations
    pub fn get_neighbors_with_direction(&self, i: usize, j: usize) -> (r: Vec<(Node, Direction)>)
        requires
            self.nr >= 1,
            self.nz >= 1,
        ensures
            r@ == self.neighbor_list(i, j),
    {
        let mut neighbors: Vec<(Node, Direction)> = Vec::new();
        if i > 0 {
            neighbors.push(((i - 1, j), Direction::RadialInner));
        }
        if i < self.nr - 1 {
            neighbors.push(((i + 1, j), Direction::RadialOuter));
        }
        if j > 0 {
            neighbors.push(((i, j - 1), Direction::AxialLower));
        }
        if j < self.nz - 1 {
            neighbors.push(((i, j + 1), Direction::AxialUpper));
        }
        assert(neighbors@ =~= self.neighbor_list(i, j));
        neighbors
    }

    /// Check if a node is on the axis (r = 0)
    pub fn is_on_axis(&self, i: usize, j: usize) -> (r: bool)
        ensures
            r == (i == 0),
    {
        i == 0
    }

    /// Check if a node is on the outer boundary (r = R_max)
    pub fn is_on_outer_boundary(&self, i: usize, j: usize) -> (r: bool)
        requires
            self.nr >= 1,
        ensures
            r == (i + 1 == self.nr),
    {
        i == self.nr - 1
    }

    /// Check if a node is on the bottom boundary (z = 0)
    pub fn is_on_bottom_boundary(&self, i: usize, j: usize) -> (r: bool)
        ensures
            r == (j == 0),
    {
        j == 0
    }

    /// Check if a node is on the top boundary (z = H_max)
    pub fn is_on_top_boundary(&self, i: usize, j: usize) -> (r: bool)
        requires
            self.nz >= 1,
        ensures
            r == (j + 1 == self.nz),
    {
        j == self.nz - 1
    }

    /// Get boundary type for a given node
    pub fn get_boundary_type(&self, i: usize, j: usize) -> (r: BoundaryType)
        requires
            i == 0 || self.nr >= 1,
            i == 0 || i + 1 == self.nr || j == 0 || self.nz >= 1,
        ensures
            r == self.boundary_type_of(i, j),
    {
        if self.is_on_axis(i, j) {
            BoundaryType::Axis
        } else if self.is_on_outer_boundary(i, j) {
            BoundaryType::OuterWall
        } else if self.is_on_bottom_boundary(i, j) {
            BoundaryType::Bottom
        } else if self.is_on_top_boundary(i, j) {
            BoundaryType::Top
        } else {
            BoundaryType::Interior
        }
    }

    /// The node whose temperature a boundary node takes under the axis
    /// symmetry and the adiabatic top and bottom conditions: the next node
    /// out from the axis, the node above the bottom, the node below the top.
    /// `None` for interior nodes, for the outer wall (which follows a heat
    /// balance instead), and where that node does not exist.
    pub open spec fn spec_boundary_source(&self, i: usize, j: usize) -> Option<Node> {
        match self.boundary_type_of(i, j) {
            BoundaryType::Axis => if i + 1 < self.nr {
                Some(((i + 1) as usize, j))
            } else {
                None
            },
            BoundaryType::Bottom => if j + 1 < self.nz {
                Some((i, (j + 1) as usize))
            } else {
                None
            },
            BoundaryType::Top => if j > 0 {
                Some((i, (j - 1) as usize))
            } else {
                None
            },
            _ => None,
        }
    }

    /// Computes [`Self::spec_boundary_source`] for node `(i, j)`.
    pub fn boundary_source(&self, i: usize, j: usize) -> (r: Option<Node>)
        requires
            i == 0 || self.nr >= 1,
            i == 0 || i + 1 == self.nr || j == 0 || self.nz >= 1,
        ensures
            r == self.spec_boundary_source(i, j),
    {
        match self.get_boundary_type(i, j) {
            BoundaryType::Axis => if i + 1 < self.nr {
                Some((i + 1, j))
            } else {
                None
            },
            BoundaryType::Bottom => if j + 1 < self.nz {
                Some((i, j + 1))
            } else {
                None
            },
            BoundaryType::Top => if j > 0 {
                Some((i, j - 1))
            } else {
                None
            },
            _ => None,
        }
    }

    /// Checks the grid's resolution, as [`CylindricalMesh::new`] does.
    pub fn validate(&self) -> (r: Result<(), SimulationError>)
        ensures
            r is Ok <==> self.well_formed(),
            r matches Err(e) ==> e@ == (ErrorView::MeshGenerationError {
                reason: resolution_error_reason(self.nr as nat, self.nz as nat),
            }),
    {
        validate_mesh_resolution(self.nr, self.nz)
    }

    /// Get total number of nodes
    pub fn total_nodes(&self) -> (r: usize)
        requires
            self.nr * self.nz <= usize::MAX,
        ensures
            r == self.nr * self.nz,
    {
        self.nr * self.nz
    }
}

/// The entries of a node's neighbor list are exactly the in-range steps in
/// the four directions.
proof fn lemma_neighbor_list_members(m: CylindricalMesh, i: usize, j: usize)
    ensures
        forall|e: (Node, Direction)|
            m.neighbor_list(i, j).contains(e) <==> {
                ||| i > 0 && e == (((i - 1) as usize, j), Direction::RadialInner)
                ||| i + 1 < m.nr && e == (((i + 1) as usize, j), Direction::RadialOuter)
                ||| j > 0 && e == ((i, (j - 1) as usize), Direction::AxialLower)
                ||| j + 1 < m.nz && e == ((i, (j + 1) as usize), Direction::AxialUpper)
            },
{
    let inner: Seq<(Node, Direction)> = if i > 0 {
        seq![(((i - 1) as usize, j), Direction::RadialInner)]
    } else {
        seq![]
    };
    let outer: Seq<(Node, Direction)> = if i + 1 < m.nr {
        seq![(((i + 1) as usize, j), Direction::RadialOuter)]
    } else {
        seq![]
    };
    let lower: Seq<(Node, Direction)> = if j > 0 {
        seq![((i, (j - 1) as usize), Direction::AxialLower)]
    } else {
        seq![]
    };
    let upper: Seq<(Node, Direction)> = if j + 1 < m.nz {
        seq![((i, (j + 1) as usize), Direction::AxialUpper)]
    } else {
        seq![]
    };
    let l = m.neighbor_list(i, j);
    assert(l == inner + outer + lower + upper);
    assert forall|e: (Node, Direction)| l.contains(e) implies {
        ||| i > 0 && e == (((i - 1) as usize, j), Direction::RadialInner)
        ||| i + 1 < m.nr && e == (((i + 1) as usize, j), Direction::RadialOuter)
        ||| j > 0 && e == ((i, (j - 1) as usize), Direction::AxialLower)
        ||| j + 1 < m.nz && e == ((i, (j + 1) as usize), Direction::AxialUpper)
    } by {
        let k = choose|k: int| 0 <= k < l.len() && l[k] == e;
        let a = inner.len() as int;
        let b = a + outer.len();
        let c = b + lower.len();
        if k < a {
            assert(l[k] == inner[k]);
        } else if k < b {
            assert(l[k] == outer[k - a]);
        } else if k < c {
            assert(l[k] == lower[k - b]);
        } else {
            assert(l[k] == upper[k - c]);
        }
    }
    assert forall|e: (Node, Direction)|
        {
            ||| i > 0 && e == (((i - 1) as usize, j), Direction::RadialInner)
            ||| i + 1 < m.nr && e == (((i + 1) as usize, j), Direction::RadialOuter)
            ||| j > 0 && e == ((i, (j - 1) as usize), Direction::AxialLower)
            ||| j + 1 < m.nz && e == ((i, (j + 1) as usize), Direction::AxialUpper)
        } implies l.contains(e) by {
        let a = inner.len() as int;
        let b = a + outer.len();
        let c = b + lower.len();
        if i > 0 && e == (((i - 1) as usize, j), Direction::RadialInner) {
            assert(l[0] == e);
        } else if i + 1 < m.nr && e == (((i + 1) as usize, j), Direction::RadialOuter) {
            assert(l[a] == e);
        } else if j > 0 && e == ((i, (j - 1) as usize), Direction::AxialLower) {
            assert(l[b] == e);
        } else {
            assert(l[c] == e);
        }
    }
}

/// The neighbors of a node of the mesh are exactly the nodes of the mesh that
/// lie one step away from it along one axis.
pub proof fn law_neighbors_are_adjacent_nodes(m: CylindricalMesh, i: usize, j: usize)
    requires
        m.contains((i, j)),
    ensures
        forall|q: Node|
            m.neighbor_nodes(i, j).contains(q) <==> m.contains(q) && adjacent((i, j), q),
{
    lemma_neighbor_list_members(m, i, j);
    let l = m.neighbor_list(i, j);
    let ns = m.neighbor_nodes(i, j);
    assert forall|q: Node| ns.contains(q) implies m.contains(q) && adjacent((i, j), q) by {
        let k = choose|k: int| 0 <= k < ns.len() && ns[k] == q;
        assert(l.contains(l[k]));
    }
    assert forall|q: Node| m.contains(q) && adjacent((i, j), q) implies ns.contains(q) by {
        let e: (Node, Direction) = if q.0 + 1 == i {
            (q, Direction::RadialInner)
        } else if q.0 == i + 1 {
            (q, Direction::RadialOuter)
        } else if q.1 + 1 == j {
            (q, Direction::AxialLower)
        } else {
            (q, Direction::AxialUpper)
        };
        assert(l.contains(e));
        let k = choose|k: int| 0 <= k < l.len() && l[k] == e;
        assert(ns[k] == q);
    }
}

/// Adjacency in the mesh is symmetric: `q` neighbors `p` exactly when `p`
/// neighbors `q`.
pub proof fn law_neighbor_symmetry(m: CylindricalMesh, p: Node, q: Node)
    requires
        m.contains(p),
        m.contains(q),
    ensures
        m.neighbor_nodes(p.0, p.1).contains(q) <==> m.neighbor_nodes(q.0, q.1).contains(p),
{
    law_neighbors_are_adjacent_nodes(m, p.0, p.1);
    law_neighbors_are_adjacent_nodes(m, q.0, q.1);
}

/// Each neighbor is reached by one step in the direction it is listed with,
/// and no direction is listed twice, so no neighbor is listed twice.
pub proof fn law_neighbor_directions(m: CylindricalMesh, i: usize, j: usize)
    ensures
        forall|k: int|
            0 <= k < m.neighbor_list(i, j).len() ==> steps_to(
                #[trigger] m.neighbor_list(i, j)[k].1,
                (i, j),
                m.neighbor_list(i, j)[k].0,
            ),
        forall|k1: int, k2: int|
            0 <= k1 < k2 < m.neighbor_list(i, j).len() ==> #[trigger] m.neighbor_list(i, j)[k1].1
                != #[trigger] m.neighbor_list(i, j)[k2].1,
        m.neighbor_nodes(i, j).no_duplicates(),
{
    lemma_neighbor_list_members(m, i, j);
    let l = m.neighbor_list(i, j);
    assert forall|k: int| 0 <= k < l.len() implies steps_to(#[trigger] l[k].1, (i, j), l[k].0) by {
        assert(l.contains(l[k]));
    }
    assert(l.len() <= 4);
    let ns = m.neighbor_nodes(i, j);
    assert forall|k1: int, k2: int| 0 <= k1 < k2 < l.len() implies #[trigger] l[k1].1
        != #[trigger] l[k2].1 by {
        assert(l.contains(l[k1]));
        assert(l.contains(l[k2]));
    }
    assert forall|k1: int, k2: int| 0 <= k1 < ns.len() && 0 <= k2 < ns.len() && k1 != k2 implies ns[k1]
        != ns[k2] by {
        assert(l.contains(l[k1]));
        assert(l.contains(l[k2]));
    }
}

/// A node of the mesh has four neighbors exactly when it is an interior node.
pub proof fn law_interior_iff_four_neighbors(m: CylindricalMesh, i: usize, j: usize)
    requires
        m.contains((i, j)),
    ensures
        (m.neighbor_list(i, j).len() == 4) <==> (m.boundary_type_of(i, j) == BoundaryType::Interior),
{
}

/// A boundary node takes its temperature from one of its own neighbors.
pub proof fn law_boundary_source_is_neighbor(m: CylindricalMesh, i: usize, j: usize)
    requires
        m.contains((i, j)),
    ensures
        m.spec_boundary_source(i, j) matches Some(q) ==> m.neighbor_nodes(i, j).contains(q),
{
    law_neighbors_are_adjacent_nodes(m, i, j);
    if let Some(q) = m.spec_boundary_source(i, j) {
        assert(m.contains(q) && adjacent((i, j), q));
    }
}

/// How nodes are classified: the axis is the column i = 0; the outer wall
/// is the last column i = nr - 1 off the axis; the bottom row j = 0 and the
/// top row j = nz - 1 count only away from those columns; every other node
/// is interior.
pub proof fn law_boundary_classification(m: CylindricalMesh, i: usize, j: usize)
    ensures
        (m.boundary_type_of(i, j) == BoundaryType::Axis) <==> i == 0,
        (m.boundary_type_of(i, j) == BoundaryType::OuterWall) <==> (i != 0 && i + 1 == m.nr),
        (m.boundary_type_of(i, j) == BoundaryType::Bottom) <==> (i != 0 && i + 1 != m.nr && j
            == 0),
        (m.boundary_type_of(i, j) == BoundaryType::Top) <==> (i != 0 && i + 1 != m.nr && j != 0
            && j + 1 == m.nz),
        (m.boundary_type_of(i, j) == BoundaryType::Interior) <==> (i != 0 && i + 1 != m.nr && j
            != 0 && j + 1 != m.nz),
{
}

/// Which nodes copy a neighbor's temperature, and which one: an axis node
/// the node outward of it, a bottom node the one above, a top node the one
/// below, each where that node exists. Outer-wall nodes, which follow a
/// heat balance, and interior nodes copy none.
pub proof fn law_boundary_source_by_type(m: CylindricalMesh, i: usize, j: usize)
    ensures
        m.boundary_type_of(i, j) == BoundaryType::OuterWall ==> m.spec_boundary_source(i, j) is None,
        m.boundary_type_of(i, j) == BoundaryType::Interior ==> m.spec_boundary_source(i, j) is None,
        m.boundary_type_of(i, j) == BoundaryType::Axis && i + 1 < m.nr ==> m.spec_boundary_source(
            i,
            j,
        ) == Some(((i + 1) as usize, j)),
        m.boundary_type_of(i, j) == BoundaryType::Bottom && j + 1 < m.nz
            ==> m.spec_boundary_source(i, j) == Some((i, (j + 1) as usize)),
        m.boundary_type_of(i, j) == BoundaryType::Top && j > 0 ==> m.spec_boundary_source(i, j)
            == Some((i, (j - 1) as usize)),
        m.spec_boundary_source(i, j) matches Some(q) ==> (m.boundary_type_of(i, j)
            == BoundaryType::Axis && q == ((i + 1) as usize, j)) || (m.boundary_type_of(i, j)
            == BoundaryType::Bottom && q == (i, (j + 1) as usize)) || (m.boundary_type_of(i, j)
            == BoundaryType::Top && q == (i, (j - 1) as usize)),
{
}

/// Every preset names a resolution that a mesh may have.
pub proof fn law_preset_resolutions_valid(p: MeshPreset)
    ensures
        resolution_in_range(p.spec_resolution().0 as nat, p.spec_resolution().1 as nat),
{
}

/// Mesh presets for common configurations
#[derive(Debug, Clone, Copy, PartialEq, Eq, Structural)]
pub enum MeshPreset {
    Fast,
    Balanced,
    High,
    Custom,
}

impl MeshPreset {
    /// The (nr, nz) resolution of a preset: 50x50, 100x100, 200x200, and
    /// 100x100 for a custom mesh.
    pub open spec fn spec_resolution(self) -> (usize, usize) {
        match self {
            MeshPreset::Fast => (50, 50),
            MeshPreset::Balanced => (100, 100),
            MeshPreset::High => (200, 200),
            MeshPreset::Custom => (100, 100),
        }
    }

    /// Get resolution for preset
    pub fn resolution(&self) -> (r: (usize, usize))
        ensures
            r == self.spec_resolution(),
    {
        match self {
            MeshPreset::Fast => (50, 50),
            MeshPreset::Balanced => (100, 100),
            MeshPreset::High => (200, 200),
            MeshPreset::Custom => (100, 100),
        }
    }

    /// Builds the grid of the preset's resolution; every preset is within the
    /// allowed resolution, so this always succeeds.
    pub fn create_mesh(&self) -> (r: Result<CylindricalMesh, SimulationError>)
        ensures
            r matches Ok(m) && m.nr == self.spec_resolution().0 && m.nz
                == self.spec_resolution().1 && m.well_formed(),
    {
        let (nr, nz) = self.resolution();
        CylindricalMesh::new(nr, nz)
    }
}

} // verus!
