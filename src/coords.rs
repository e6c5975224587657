//! Integer vectors and the transforms between global voxel coordinates,
//! chunk coordinates and voxel coordinates local to a chunk.

use vstd::prelude::*;

verus! {

/// The width of a chunk in voxels (extent along x).
pub const CHUNK_WIDTH: usize = 32;

/// The height of a chunk in voxels (extent along y).
pub const CHUNK_HEIGHT: usize = 32;

/// The depth of a chunk in voxels (extent along z).
pub const CHUNK_DEPTH: usize = 32;

/// A vector of three signed integers: a global voxel coordinate or a chunk coordinate.
#[derive(Clone, Copy, Debug, PartialEq, Eq, Structural, Hash)]
pub struct IVec3 {
    pub x: i32,
    pub y: i32,
    pub z: i32,
}

/// A vector of three unsigned integers: a voxel coordinate local to a chunk.
#[derive(Clone, Copy, Debug, PartialEq, Eq, Structural, Hash)]
pub struct UVec3 {
    pub x: u32,
    pub y: u32,
    pub z: u32,
}

impl IVec3 {
    pub fn new(x: i32, y: i32, z: i32) -> (r: IVec3)
        ensures
            r == (IVec3 { x, y, z }),
    {
        IVec3 { x, y, z }
    }
}

impl UVec3 {
    pub fn new(x: u32, y: u32, z: u32) -> (r: UVec3)
        ensures
            r == (UVec3 { x, y, z }),
    {
        UVec3 { x, y, z }
    }
}

/// Floored division of one axis by a chunk dimension. For a positive divisor
/// the Euclidean quotient of `int` division is the floor of the real quotient.
pub open spec fn axis_chunk(a: int, dim: int) -> int {
    a / dim
}

/// Floored remainder of one axis by a chunk dimension, in `[0, dim)`.
pub open spec fn axis_local(a: int, dim: int) -> int {
    a % dim
}

/// The chunk that holds a global voxel coordinate.
pub open spec fn chunk_coord_of(v: IVec3) -> IVec3 {
    IVec3 {
        x: axis_chunk(v.x as int, CHUNK_WIDTH as int) as i32,
        y: axis_chunk(v.y as int, CHUNK_HEIGHT as int) as i32,
        z: axis_chunk(v.z as int, CHUNK_DEPTH as int) as i32,
    }
}

/// The position of a global voxel coordinate inside its chunk.
pub open spec fn local_coord_of(v: IVec3) -> UVec3 {
    UVec3 {
        x: axis_local(v.x as int, CHUNK_WIDTH as int) as u32,
        y: axis_local(v.y as int, CHUNK_HEIGHT as int) as u32,
        z: axis_local(v.z as int, CHUNK_DEPTH as int) as u32,
    }
}

/// A local coordinate lies inside a chunk on every axis.
pub open spec fn local_in_bounds(l: UVec3) -> bool {
    &&& l.x < CHUNK_WIDTH
    &&& l.y < CHUNK_HEIGHT
    &&& l.z < CHUNK_DEPTH
}

/// The global voxel coordinate, per axis as a mathematical integer, of a
/// local coordinate inside a chunk: chunk coordinate times dimension plus
/// local coordinate.
pub open spec fn reconstruct_axis(c: int, l: int, dim: int) -> int {
    c * dim + l
}

/// The global voxel coordinate of `local` inside chunk `chunk`, when it fits
/// in the coordinate type.
pub open spec fn reconstruct(chunk: IVec3, local: UVec3) -> IVec3 {
    IVec3 {
        x: reconstruct_axis(chunk.x as int, local.x as int, CHUNK_WIDTH as int) as i32,
        y: reconstruct_axis(chunk.y as int, local.y as int, CHUNK_HEIGHT as int) as i32,
        z: reconstruct_axis(chunk.z as int, local.z as int, CHUNK_DEPTH as int) as i32,
    }
}

/// Converts a global voxel coordinate to the coordinate of the chunk that holds
/// it: floored division of each axis by the chunk's dimension on that axis, so
/// that negative coordinates round toward negative infinity.
pub fn global_voxel_to_chunk_coord(voxel_pos: IVec3) -> (r: IVec3)
    ensures
        r == chunk_coord_of(voxel_pos),
{
    IVec3::new(
        voxel_pos.x.checked_div_euclid(CHUNK_WIDTH as i32).unwrap(),
        voxel_pos.y.checked_div_euclid(CHUNK_HEIGHT as i32).unwrap(),
        voxel_pos.z.checked_div_euclid(CHUNK_DEPTH as i32).unwrap(),
    )
}

/// Converts a global voxel coordinate to its coordinate inside its chunk:
/// floored remainder of each axis by the chunk's dimension on that axis, so
/// that every axis lies in `[0, dimension)`, negative inputs included.
pub fn global_voxel_to_local_voxel_coord(voxel_pos: IVec3) -> (r: UVec3)
    ensures
        r == local_coord_of(voxel_pos),
        local_in_bounds(r),
{
    let x = voxel_pos.x.checked_rem_euclid(CHUNK_WIDTH as i32).unwrap();
    let y = voxel_pos.y.checked_rem_euclid(CHUNK_HEIGHT as i32).unwrap();
    let z = voxel_pos.z.checked_rem_euclid(CHUNK_DEPTH as i32).unwrap();
    UVec3::new(x as u32, y as u32, z as u32)
}

/// Splitting a global voxel coordinate into its chunk and local coordinates and
/// joining them again gives back the coordinate, on every axis and for every
/// coordinate, negative ones included.
pub proof fn lemma_chunk_local_round_trip(v: IVec3)
    ensures
        reconstruct(chunk_coord_of(v), local_coord_of(v)) == v,
{
}

/// Every chunk coordinate and in-bounds local coordinate whose joined global
/// coordinate fits in the coordinate type come from exactly that global
/// coordinate: together with the round trip above, the split is a bijection.
pub proof fn lemma_reconstruct_splits_back(chunk: IVec3, local: UVec3)
    requires
        local_in_bounds(local),
        i32::MIN <= reconstruct_axis(chunk.x as int, local.x as int, CHUNK_WIDTH as int) <= i32::MAX,
        i32::MIN <= reconstruct_axis(chunk.y as int, local.y as int, CHUNK_HEIGHT as int) <= i32::MAX,
        i32::MIN <= reconstruct_axis(chunk.z as int, local.z as int, CHUNK_DEPTH as int) <= i32::MAX,
    ensures
        chunk_coord_of(reconstruct(chunk, local)) == chunk,
        local_coord_of(reconstruct(chunk, local)) == local,
{
}

} // verus!
