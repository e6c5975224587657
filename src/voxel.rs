//! Materials and the contents of a single voxel.

use vstd::prelude::*;

verus! {

/// Identifies the substance a voxel is made of. `0` is reserved for air: no
/// solid material.
#[derive(Clone, Copy, Debug, PartialEq, Eq, Structural, Hash)]
pub struct MaterialId(pub u16);

/// The properties of a voxel material.
#[derive(Debug, Clone)]
pub struct Material {
    pub name: String,
    pub is_solid: bool,
}

/// The contents of one cell of the world: its material.
#[derive(Clone, Copy, Debug, PartialEq, Eq, Structural, Hash)]
pub struct Voxel(pub MaterialId);

/// The air voxel, with which every chunk starts.
pub open spec fn air() -> Voxel {
    Voxel(MaterialId(0))
}

impl MaterialId {
    /// The reserved identifier of air.
    pub fn air() -> (r: MaterialId)
        ensures
            r == MaterialId(0),
    {
        MaterialId(0)
    }

    /// Whether this identifier names air.
    pub fn is_air(&self) -> (r: bool)
        ensures
            r == (self.0 == 0),
    {
        self.0 == 0
    }
}

impl Default for MaterialId {
    fn default() -> (r: MaterialId)
        ensures
            r == MaterialId(0),
    {
        MaterialId::air()
    }
}

impl Voxel {
    /// The empty voxel.
    pub fn air() -> (r: Voxel)
        ensures
            r == air(),
    {
        Voxel(MaterialId::air())
    }

    /// Whether this voxel holds air.
    pub fn is_air(&self) -> (r: bool)
        ensures
            r == (*self == air()),
    {
        self.0.is_air()
    }
}

impl Default for Voxel {
    fn default() -> (r: Voxel)
        ensures
            r == air(),
    {
        Voxel::air()
    }
}

} // verus!
