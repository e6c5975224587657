//! The voxel world store: a sparse map from chunk coordinate to chunk, read
//! and written by global voxel coordinate. Chunks are created on their first
//! write and marked dirty by every write.

use std::collections::HashMap;

use vstd::arithmetic::div_mod::lemma_fundamental_div_mod_converse;
use vstd::prelude::*;

use crate::chunk::{local_index, local_index_of, Chunk, ChunkView};
use crate::coords::{
    chunk_coord_of, global_voxel_to_chunk_coord, global_voxel_to_local_voxel_coord,
    local_coord_of, IVec3,
};
use crate::voxel::Voxel;

verus! {

/// Every chunk of a store's model holds exactly one voxel per local coordinate.
pub open spec fn chunks_wf(w: Map<IVec3, ChunkView>) -> bool {
    forall|c: IVec3| w.contains_key(c) ==> #[trigger] w[c].wf()
}

/// The voxel that the store `w` holds at global voxel coordinate `pos`: absent
/// when the chunk that holds `pos` was never created.
pub open spec fn voxel_in(w: Map<IVec3, ChunkView>, pos: IVec3) -> Option<Voxel> {
    let c = chunk_coord_of(pos);
    if w.contains_key(c) {
        Some(w[c].voxel_at(local_coord_of(pos)))
    } else {
        None
    }
}

/// The store `w` after `v` is written at global voxel coordinate `pos`: the
/// chunk that holds `pos` is created all air if it is absent, takes `v` at
/// the local coordinate of `pos`, and becomes dirty.
pub open spec fn with_voxel(w: Map<IVec3, ChunkView>, pos: IVec3, v: Voxel) -> Map<
    IVec3,
    ChunkView,
> {
    let c = chunk_coord_of(pos);
    let base = if w.contains_key(c) {
        w[c]
    } else {
        ChunkView::fresh()
    };
    w.insert(c, base.written(local_index_of(local_coord_of(pos)), v))
}

/// The store `w` after the chunk at `c` is marked clean; unchanged when there
/// is no such chunk.
pub open spec fn with_chunk_clean(w: Map<IVec3, ChunkView>, c: IVec3) -> Map<IVec3, ChunkView> {
    if w.contains_key(c) {
        w.insert(c, w[c].cleaned())
    } else {
        w
    }
}

/// The coordinates of the chunks of `w` whose dirty flag is set.
pub open spec fn dirty_coords(w: Map<IVec3, ChunkView>) -> Set<IVec3> {
    Set::new(|c: IVec3| w.contains_key(c) && w[c].is_dirty)
}

/// The number of distinct chunk keys: one per triple of 32-bit coordinates.
spec fn key_space() -> int {
    0x1_0000_0000_0000_0000_0000_0000
}

/// The hash map key of a chunk coordinate: its three axes, each shifted into
/// `[0, 2^32)`, packed into one integer.
spec fn chunk_key_of(c: IVec3) -> int {
    (c.x + 0x8000_0000) * 0x1_0000_0000_0000_0000 + (c.y + 0x8000_0000) * 0x1_0000_0000 + (c.z
        + 0x8000_0000)
}

/// A packed key gives back the three shifted axes it was made of.
proof fn lemma_chunk_key_unpacks(c: IVec3)
    ensures
        0 <= chunk_key_of(c) < key_space(),
        chunk_key_of(c) / 0x1_0000_0000_0000_0000 == c.x + 0x8000_0000,
        (chunk_key_of(c) / 0x1_0000_0000) % 0x1_0000_0000 == c.y + 0x8000_0000,
        chunk_key_of(c) % 0x1_0000_0000 == c.z + 0x8000_0000,
{
    let k = chunk_key_of(c);
    let a = c.x + 0x8000_0000;
    let b = c.y + 0x8000_0000;
    let z = c.z + 0x8000_0000;
    lemma_fundamental_div_mod_converse(k, 0x1_0000_0000, a * 0x1_0000_0000 + b, z);
    lemma_fundamental_div_mod_converse(a * 0x1_0000_0000 + b, 0x1_0000_0000, a, b);
    lemma_fundamental_div_mod_converse(k, 0x1_0000_0000_0000_0000, a, b * 0x1_0000_0000 + z);
}

/// Different chunk coordinates have different keys.
proof fn lemma_chunk_key_injective(c: IVec3, d: IVec3)
    ensures
        chunk_key_of(c) == chunk_key_of(d) ==> c == d,
{
    lemma_chunk_key_unpacks(c);
    lemma_chunk_key_unpacks(d);
}

/// Computes the hash map key of a chunk coordinate.
fn chunk_key(c: IVec3) -> (k: u128)
    ensures
        k == chunk_key_of(c),
{
    proof {
        lemma_chunk_key_unpacks(c);
    }
    let x = (c.x as i64 + 0x8000_0000) as u128;
    let y = (c.y as i64 + 0x8000_0000) as u128;
    let z = (c.z as i64 + 0x8000_0000) as u128;
    x * 0x1_0000_0000_0000_0000 + y * 0x1_0000_0000 + z
}

/// Recovers the chunk coordinate from its hash map key.
fn chunk_coord_of_key(k: u128) -> (c: IVec3)
    requires
        k < key_space(),
    ensures
        chunk_key_of(c) == k,
{
    let x = k / 0x1_0000_0000_0000_0000;
    let y = (k / 0x1_0000_0000) % 0x1_0000_0000;
    let z = k % 0x1_0000_0000;
    proof {
        lemma_fundamental_div_mod_converse(
            k as int,
            0x1_0000_0000_0000_0000,
            x as int,
            (y * 0x1_0000_0000 + z) as int,
        );
        assert(k == x * 0x1_0000_0000_0000_0000 + y * 0x1_0000_0000 + z) by {
            lemma_fundamental_div_mod_converse(
                k as int,
                0x1_0000_0000,
                (k / 0x1_0000_0000) as int,
                z as int,
            );
            lemma_fundamental_div_mod_converse(
                (k / 0x1_0000_0000) as int,
                0x1_0000_0000,
                x as int,
                y as int,
            );
        }
    }
    IVec3::new(
        (x as i64 - 0x8000_0000) as i32,
        (y as i64 - 0x8000_0000) as i32,
        (z as i64 - 0x8000_0000) as i32,
    )
}

/// All the chunks of the world, keyed by chunk coordinate. This is the one
/// source of truth for the world's voxel content.
#[derive(Debug)]
pub struct WorldData {
    chunks: HashMap<u128, Chunk>,
}

impl View for WorldData {
    type V = Map<IVec3, ChunkView>;

    closed spec fn view(&self) -> Map<IVec3, ChunkView> {
        Map::new(
            |c: IVec3| self.chunks@.contains_key(chunk_key_of(c) as u128),
            |c: IVec3| self.chunks@[chunk_key_of(c) as u128]@,
        )
    }
}

impl WorldData {
    #[verifier::type_invariant]
    spec fn keys_and_chunks_valid(self) -> bool {
        forall|k: u128| #[trigger]
            self.chunks@.contains_key(k) ==> k < key_space() && self.chunks@[k]@.wf()
    }

    /// An empty world: no chunk is loaded.
    pub fn new() -> (r: WorldData)
        ensures
            r@ == Map::<IVec3, ChunkView>::empty(),
            chunks_wf(r@),
    {
        let r = WorldData { chunks: HashMap::new() };
        assert(r@ =~= Map::<IVec3, ChunkView>::empty());
        r
    }

    /// Gets the voxel at a global voxel coordinate, or `None` when the chunk
    /// that holds it is not loaded. Absence differs from air: an air voxel
    /// lies in a loaded chunk.
    pub fn get_voxel(&self, voxel_pos: IVec3) -> (r: Option<Voxel>)
        ensures
            r == voxel_in(self@, voxel_pos),
    {
        let chunk_coord = global_voxel_to_chunk_coord(voxel_pos);
        let key = chunk_key(chunk_coord);
        match self.chunks.get(&key) {
            Some(chunk) => {
                let local_coord = global_voxel_to_local_voxel_coord(voxel_pos);
                Some(chunk.voxel(local_coord))
            },
            None => None,
        }
    }

    /// Sets the voxel at a global voxel coordinate. The chunk that holds it is
    /// created, all air, if it does not exist yet; either way it is marked
    /// dirty, also when `voxel` equals what it held.
    pub fn set_voxel(&mut self, voxel_pos: IVec3, voxel: Voxel)
        ensures
            final(self)@ == with_voxel(old(self)@, voxel_pos, voxel),
            chunks_wf(final(self)@),
    {
        proof {
            use_type_invariant(&*self);
        }
        let chunk_coord = global_voxel_to_chunk_coord(voxel_pos);
        let key = chunk_key(chunk_coord);
        let local_coord = global_voxel_to_local_voxel_coord(voxel_pos);
        let index = local_index(local_coord);

        // Update the map outside `self`, so that the store's invariant holds
        // at every step.
        let mut chunks: HashMap<u128, Chunk> = HashMap::new();
        std::mem::swap(&mut chunks, &mut self.chunks);
        let mut chunk = match chunks.remove(&key) {
            Some(chunk) => chunk,
            None => Chunk::new(),
        };
        chunk.write(index, voxel);
        chunks.insert(key, chunk);
        self.chunks = chunks;
        proof {
            assert forall|c: IVec3| #[trigger]
                self@.contains_key(c) == with_voxel(old(self)@, voxel_pos, voxel).contains_key(
                    c,
                ) by {
                lemma_chunk_key_injective(c, chunk_coord);
            }
            assert forall|c: IVec3| #[trigger] self@.contains_key(c) implies self@[c]
                == with_voxel(old(self)@, voxel_pos, voxel)[c] by {
                lemma_chunk_key_injective(c, chunk_coord);
            }
            assert(self@ =~= with_voxel(old(self)@, voxel_pos, voxel));
        }
    }

    /// Whether the chunk at a chunk coordinate is loaded.
    pub fn contains_chunk(&self, chunk_coord: IVec3) -> (r: bool)
        ensures
            r == self@.contains_key(chunk_coord),
    {
        self.chunks.contains_key(&chunk_key(chunk_coord))
    }

    /// The chunk at a chunk coordinate, if it is loaded.
    pub fn chunk(&self, chunk_coord: IVec3) -> (r: Option<&Chunk>)
        ensures
            match r {
                Some(chunk) => self@.contains_key(chunk_coord) && chunk@ == self@[chunk_coord],
                None => !self@.contains_key(chunk_coord),
            },
    {
        self.chunks.get(&chunk_key(chunk_coord))
    }

    /// Clears the dirty flag of the chunk at a chunk coordinate, once its mesh
    /// has been rebuilt; does nothing when that chunk is not loaded.
    pub fn mark_chunk_clean(&mut self, chunk_coord: IVec3)
        ensures
            final(self)@ == with_chunk_clean(old(self)@, chunk_coord),
            chunks_wf(final(self)@),
    {
        proof {
            use_type_invariant(&*self);
        }
        let key = chunk_key(chunk_coord);
        let mut chunks: HashMap<u128, Chunk> = HashMap::new();
        std::mem::swap(&mut chunks, &mut self.chunks);
        match chunks.remove(&key) {
            Some(chunk) => {
                let mut chunk = chunk;
                chunk.mark_clean();
                chunks.insert(key, chunk);
            },
            None => {},
        }
        self.chunks = chunks;
        proof {
            assert forall|c: IVec3| #[trigger]
                self@.contains_key(c) == with_chunk_clean(old(self)@, chunk_coord).contains_key(
                    c,
                ) by {
                lemma_chunk_key_injective(c, chunk_coord);
            }
            assert forall|c: IVec3| #[trigger] self@.contains_key(c) implies self@[c]
                == with_chunk_clean(old(self)@, chunk_coord)[c] by {
                lemma_chunk_key_injective(c, chunk_coord);
            }
            assert(self@ =~= with_chunk_clean(old(self)@, chunk_coord));
        }
    }

    /// The coordinates of the chunks whose dirty flag is set, each once, in
    /// no particular order.
    pub fn dirty_chunks(&self) -> (r: Vec<IVec3>)
        ensures
            r@.to_set() == dirty_coords(self@),
            r@.no_duplicates(),
    {
        proof {
            use_type_invariant(self);
        }
        let mut r: Vec<IVec3> = Vec::new();
        for key in iter: self.chunks.keys()
            invariant
                iter.seq().unref().to_set() == self.chunks@.dom(),
                iter.seq().no_duplicates(),
                forall|k: u128| #[trigger]
                    self.chunks@.contains_key(k) ==> k < key_space() && self.chunks@[k]@.wf(),
                r@.no_duplicates(),
                forall|c: IVec3|
                    #![trigger r@.contains(c)]
                    r@.contains(c) <==> (self@.contains_key(c) && self@[c].is_dirty && exists|
                        j: int,
                    |
                        0 <= j < iter.index() && *iter.seq()[j] == chunk_key_of(c)),
                iter.index() == iter.seq().len() ==> forall|c: IVec3| #[trigger]
                    dirty_coords(self@).contains(c) ==> r@.contains(c),
        {
            let ghost i = iter.index();
            let ghost r_old = r@;
            assert(self.chunks@.contains_key(*key)) by {
                assert(iter.seq().unref().to_set().contains(*iter.seq()[i]));
            }
            let chunk = self.chunks.get(key).unwrap();
            let c = chunk_coord_of_key(*key);
            assert(self@.contains_key(c) && self@[c] == chunk@);
            if chunk.is_dirty() {
                proof {
                    assert forall|d: IVec3| r_old.contains(d) implies d != c by {
                        let j = choose|j: int|
                            0 <= j < i && *iter.seq()[j] == chunk_key_of(d);
                        assert(iter.seq()[j] != iter.seq()[i]);
                    }
                }
                r.push(c);
                proof {
                    assert forall|x: int, y: int|
                        0 <= x < r@.len() && 0 <= y < r@.len() && x != y implies r@[x]
                        != r@[y] by {
                        if x < r_old.len() && y < r_old.len() {
                        } else if x < r_old.len() {
                            assert(r_old.contains(r@[x]));
                        } else {
                            assert(r_old.contains(r@[y]));
                        }
                    }
                }
            }
            proof {
                assert forall|d: IVec3| #[trigger] r@.contains(d) <==> (self@.contains_key(d)
                    && self@[d].is_dirty && exists|j: int|
                    0 <= j < i + 1 && *iter.seq()[j] == chunk_key_of(d)) by {
                    lemma_chunk_key_injective(d, c);
                    if r_old.contains(d) {
                        let idx = choose|idx: int| 0 <= idx < r_old.len() && r_old[idx] == d;
                        assert(r@[idx] == d);
                    }
                    if r@.contains(d) && !r_old.contains(d) {
                        let idx = choose|idx: int| 0 <= idx < r@.len() && r@[idx] == d;
                        assert(idx == r_old.len());
                        assert(d == c);
                        assert(*iter.seq()[i] == chunk_key_of(d));
                    }
                    if self@.contains_key(d) && self@[d].is_dirty && *iter.seq()[i]
                        == chunk_key_of(d) {
                        assert(d == c);
                        assert(r@[r_old.len() as int] == c);
                    }
                }
                assert forall|c: IVec3|
                    i + 1 == iter.seq().len() && #[trigger] dirty_coords(self@).contains(
                        c,
                    ) implies r@.contains(c) by {
                    assert(iter.seq().unref().to_set().contains(chunk_key_of(c) as u128));
                }
            }
        }
        assert(r@.to_set() =~= dirty_coords(self@));
        r
    }
}

impl Default for WorldData {
    fn default() -> (r: WorldData)
        ensures
            r@ == Map::<IVec3, ChunkView>::empty(),
            chunks_wf(r@),
    {
        WorldData::new()
    }
}

} // verus!
