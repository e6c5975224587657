//! A chunk: a fixed-size block of voxels, the unit of storage and of dirty
//! tracking.

use vstd::prelude::*;

use crate::coords::{local_in_bounds, UVec3, CHUNK_DEPTH, CHUNK_HEIGHT, CHUNK_WIDTH};
use crate::voxel::{air, Voxel};

verus! {

/// The number of voxels in a chunk.
pub const CHUNK_VOLUME: usize = CHUNK_WIDTH * CHUNK_HEIGHT * CHUNK_DEPTH;

/// The position of a local coordinate in a chunk's flat voxel array:
/// `x + WIDTH * (y + HEIGHT * z)`.
pub open spec fn local_index_of(l: UVec3) -> int {
    l.x + CHUNK_WIDTH * (l.y + CHUNK_HEIGHT * l.z)
}

/// Computes the position of an in-bounds local coordinate in a chunk's flat
/// voxel array.
pub fn local_index(l: UVec3) -> (i: usize)
    requires
        local_in_bounds(l),
    ensures
        i == local_index_of(l),
        i < CHUNK_VOLUME,
{
    l.x as usize + CHUNK_WIDTH * (l.y as usize + CHUNK_HEIGHT * l.z as usize)
}

/// Different in-bounds local coordinates occupy different positions of the
/// flat voxel array, and every position lies inside the array.
pub proof fn lemma_local_index_injective(a: UVec3, b: UVec3)
    requires
        local_in_bounds(a),
        local_in_bounds(b),
    ensures
        0 <= local_index_of(a) < CHUNK_VOLUME,
        local_index_of(a) == local_index_of(b) ==> a == b,
{
}

/// What a chunk holds: its voxels in flat order and its dirty flag.
pub ghost struct ChunkView {
    pub voxels: Seq<Voxel>,
    pub is_dirty: bool,
}

impl ChunkView {
    /// A freshly created chunk: all air, and dirty, since it has never been
    /// meshed.
    pub open spec fn fresh() -> ChunkView {
        ChunkView { voxels: Seq::new(CHUNK_VOLUME as nat, |i: int| air()), is_dirty: true }
    }

    /// The chunk holds exactly one voxel per local coordinate.
    pub open spec fn wf(self) -> bool {
        self.voxels.len() == CHUNK_VOLUME
    }

    /// The voxel at an in-bounds local coordinate.
    pub open spec fn voxel_at(self, l: UVec3) -> Voxel {
        self.voxels[local_index_of(l)]
    }

    /// The chunk after `v` is written at flat position `index`: the content
    /// changes there and the chunk becomes dirty, whatever it held before.
    pub open spec fn written(self, index: int, v: Voxel) -> ChunkView {
        ChunkView { voxels: self.voxels.update(index, v), is_dirty: true }
    }

    /// The chunk after its dirty flag is cleared; its content is unchanged.
    pub open spec fn cleaned(self) -> ChunkView {
        ChunkView { voxels: self.voxels, is_dirty: false }
    }
}

/// A block of `CHUNK_WIDTH` x `CHUNK_HEIGHT` x `CHUNK_DEPTH` voxels, stored
/// flat, with a flag that says whether its mesh must be rebuilt.
#[derive(Debug)]
pub struct Chunk {
    voxels: Vec<Voxel>,
    is_dirty: bool,
}

impl View for Chunk {
    type V = ChunkView;

    closed spec fn view(&self) -> ChunkView {
        ChunkView { voxels: self.voxels@, is_dirty: self.is_dirty }
    }
}

impl Chunk {
    #[verifier::type_invariant]
    spec fn holds_every_voxel(self) -> bool {
        self.voxels.len() == CHUNK_VOLUME
    }

    /// A new chunk: all air, and dirty.
    pub fn new() -> (r: Chunk)
        ensures
            r@ == ChunkView::fresh(),
    {
        let mut voxels: Vec<Voxel> = Vec::new();
        let mut i: usize = 0;
        while i < CHUNK_VOLUME
            invariant
                i <= CHUNK_VOLUME,
                voxels@ == Seq::new(i as nat, |j: int| air()),
            decreases CHUNK_VOLUME - i,
        {
            voxels.push(Voxel::air());
            i = i + 1;
        }
        Chunk { voxels, is_dirty: true }
    }

    /// The voxel at an in-bounds local coordinate.
    pub fn voxel(&self, local: UVec3) -> (v: Voxel)
        requires
            local_in_bounds(local),
        ensures
            v == self@.voxel_at(local),
    {
        proof {
            use_type_invariant(self);
        }
        self.voxels[local_index(local)]
    }

    /// Whether the chunk's mesh must be rebuilt.
    pub fn is_dirty(&self) -> (b: bool)
        ensures
            b == self@.is_dirty,
    {
        self.is_dirty
    }

    /// Writes `v` at flat position `index` and marks the chunk dirty.
    pub(crate) fn write(&mut self, index: usize, v: Voxel)
        requires
            index < CHUNK_VOLUME,
        ensures
            final(self)@ == old(self)@.written(index as int, v),
    {
        proof {
            use_type_invariant(&*self);
        }
        self.voxels[index] = v;
        self.is_dirty = true;
    }

    /// Clears the dirty flag, once the chunk's mesh has been rebuilt.
    pub fn mark_clean(&mut self)
        ensures
            final(self)@ == old(self)@.cleaned(),
    {
        proof {
            use_type_invariant(&*self);
        }
        self.is_dirty = false;
    }
}

impl Clone for Chunk {
    fn clone(&self) -> (r: Chunk)
        ensures
            r@ == self@,
    {
        proof {
            use_type_invariant(self);
        }
        Chunk { voxels: self.voxels.clone(), is_dirty: self.is_dirty }
    }
}

impl Default for Chunk {
    fn default() -> (r: Chunk)
        ensures
            r@ == ChunkView::fresh(),
    {
        Chunk::new()
    }
}

} // verus!
