//! Laws of the voxel store, stated over the model that the operations of
//! `WorldData` are specified against.

use vstd::prelude::*;

use crate::chunk::{lemma_local_index_injective, local_index_of, ChunkView};
use crate::coords::{chunk_coord_of, lemma_chunk_local_round_trip, local_coord_of, IVec3};
use crate::voxel::{air, Voxel};
use crate::world::{chunks_wf, dirty_coords, voxel_in, with_chunk_clean, with_voxel};

verus! {

/// The store that a sequence of writes, applied in order, makes of `w`.
pub open spec fn apply_writes(w: Map<IVec3, ChunkView>, writes: Seq<(IVec3, Voxel)>) -> Map<
    IVec3,
    ChunkView,
>
    decreases writes.len(),
{
    if writes.len() == 0 {
        w
    } else {
        with_voxel(apply_writes(w, writes.drop_last()), writes.last().0, writes.last().1)
    }
}

/// Some write of `writes` touches the extent of the chunk at `c`.
pub open spec fn touches_chunk(writes: Seq<(IVec3, Voxel)>, c: IVec3) -> bool {
    exists|i: int| 0 <= i < writes.len() && chunk_coord_of(#[trigger] writes[i].0) == c
}

/// A write keeps every chunk holding exactly one voxel per local coordinate.
pub proof fn lemma_write_keeps_wf(w: Map<IVec3, ChunkView>, pos: IVec3, v: Voxel)
    requires
        chunks_wf(w),
    ensures
        chunks_wf(with_voxel(w, pos, v)),
{
    let after = with_voxel(w, pos, v);
    assert forall|c: IVec3| after.contains_key(c) implies #[trigger] after[c].wf() by {
        if w.contains_key(c) {
            assert(w[c].wf());
        }
    }
}

/// After `v` is written at `pos`, reading `pos` gives `v`, and the chunk that
/// holds `pos` is dirty.
pub proof fn lemma_write_then_read(w: Map<IVec3, ChunkView>, pos: IVec3, v: Voxel)
    requires
        chunks_wf(w),
    ensures
        voxel_in(with_voxel(w, pos, v), pos) == Some(v),
        with_voxel(w, pos, v)[chunk_coord_of(pos)].is_dirty,
{
    lemma_local_index_injective(local_coord_of(pos), local_coord_of(pos));
    if w.contains_key(chunk_coord_of(pos)) {
        assert(w[chunk_coord_of(pos)].wf());
    }
}

/// A write at `pos` changes no other voxel: a voxel elsewhere reads as before,
/// except that a voxel in the chunk that the write created reads as air.
pub proof fn lemma_write_keeps_other_voxels(
    w: Map<IVec3, ChunkView>,
    pos: IVec3,
    v: Voxel,
    other: IVec3,
)
    requires
        chunks_wf(w),
        other != pos,
    ensures
        voxel_in(with_voxel(w, pos, v), other) == if chunk_coord_of(other) == chunk_coord_of(pos)
            && !w.contains_key(chunk_coord_of(pos)) {
            Some(air())
        } else {
            voxel_in(w, other)
        },
{
    lemma_local_index_injective(local_coord_of(pos), local_coord_of(other));
    lemma_local_index_injective(local_coord_of(other), local_coord_of(pos));
    lemma_chunk_local_round_trip(pos);
    lemma_chunk_local_round_trip(other);
    if w.contains_key(chunk_coord_of(pos)) {
        assert(w[chunk_coord_of(pos)].wf());
    }
    if w.contains_key(chunk_coord_of(other)) {
        assert(w[chunk_coord_of(other)].wf());
    }
}

/// Reads never create chunks, and the chunks of a store built by writes from
/// the empty store are exactly those whose extent some write touched.
pub proof fn lemma_chunks_are_those_written(writes: Seq<(IVec3, Voxel)>)
    ensures
        forall|c: IVec3|
            #[trigger] apply_writes(Map::empty(), writes).contains_key(c) <==> touches_chunk(
                writes,
                c,
            ),
        chunks_wf(apply_writes(Map::empty(), writes)),
    decreases writes.len(),
{
    if writes.len() > 0 {
        let prefix = writes.drop_last();
        lemma_chunks_are_those_written(prefix);
        lemma_write_keeps_wf(apply_writes(Map::empty(), prefix), writes.last().0, writes.last().1);
        assert forall|c: IVec3|
            #[trigger] apply_writes(Map::empty(), writes).contains_key(c) <==> touches_chunk(
                writes,
                c,
            ) by {
            if touches_chunk(writes, c) {
                let i = choose|i: int|
                    0 <= i < writes.len() && chunk_coord_of(#[trigger] writes[i].0) == c;
                if i < writes.len() - 1 {
                    assert(prefix[i] == writes[i]);
                    assert(touches_chunk(prefix, c));
                }
            }
            if touches_chunk(prefix, c) {
                let i = choose|i: int|
                    0 <= i < prefix.len() && chunk_coord_of(#[trigger] prefix[i].0) == c;
                assert(writes[i] == prefix[i]);
            }
        }
    }
}

/// In a store built by writes from the empty store, a voxel reads as absent
/// exactly when no write touched the extent of its chunk.
pub proof fn lemma_absent_until_chunk_written(writes: Seq<(IVec3, Voxel)>, pos: IVec3)
    ensures
        voxel_in(apply_writes(Map::empty(), writes), pos) is None <==> !touches_chunk(
            writes,
            chunk_coord_of(pos),
        ),
{
    lemma_chunks_are_those_written(writes);
}

/// Writing air makes a voxel present and air: a loaded empty voxel, which
/// differs from an absent one.
pub proof fn lemma_air_write_reads_air(w: Map<IVec3, ChunkView>, pos: IVec3)
    requires
        chunks_wf(w),
    ensures
        voxel_in(with_voxel(w, pos, air()), pos) == Some(air()),
{
    lemma_write_then_read(w, pos, air());
}

/// The chunks of a store after a write are those before it and the chunk
/// that holds the written voxel.
pub proof fn lemma_write_creates_only_its_chunk(w: Map<IVec3, ChunkView>, pos: IVec3, v: Voxel)
    ensures
        with_voxel(w, pos, v).dom() == w.dom().insert(chunk_coord_of(pos)),
{
    assert(with_voxel(w, pos, v).dom() =~= w.dom().insert(chunk_coord_of(pos)));
}

/// Dirtiness does not compare contents: writing the value a voxel already
/// holds leaves the content as it was and still makes the chunk dirty, also
/// after the chunk was marked clean.
pub proof fn lemma_dirty_without_change(w: Map<IVec3, ChunkView>, pos: IVec3, v: Voxel)
    requires
        chunks_wf(w),
        voxel_in(w, pos) == Some(v),
    ensures
        with_voxel(w, pos, v)[chunk_coord_of(pos)].voxels == w[chunk_coord_of(pos)].voxels,
        with_voxel(w, pos, v)[chunk_coord_of(pos)].is_dirty,
        with_voxel(with_chunk_clean(w, chunk_coord_of(pos)), pos, v)[chunk_coord_of(
            pos,
        )].is_dirty,
{
    let c = chunk_coord_of(pos);
    lemma_local_index_injective(local_coord_of(pos), local_coord_of(pos));
    assert(w[c].wf());
    assert(w[c].voxels.update(local_index_of(local_coord_of(pos)), v) =~= w[c].voxels);
}

/// Writing the same value twice gives the same store as writing it once, and
/// the chunk stays dirty.
pub proof fn lemma_write_twice_same_value(w: Map<IVec3, ChunkView>, pos: IVec3, v: Voxel)
    requires
        chunks_wf(w),
    ensures
        with_voxel(with_voxel(w, pos, v), pos, v) == with_voxel(w, pos, v),
        with_voxel(with_voxel(w, pos, v), pos, v)[chunk_coord_of(pos)].is_dirty,
{
    let once = with_voxel(w, pos, v);
    let c = chunk_coord_of(pos);
    let i = local_index_of(local_coord_of(pos));
    lemma_local_index_injective(local_coord_of(pos), local_coord_of(pos));
    lemma_write_keeps_wf(w, pos, v);
    lemma_write_then_read(w, pos, v);
    assert(once[c].wf());
    assert(once[c].voxels.update(i, v) =~= once[c].voxels);
    assert(with_voxel(once, pos, v) =~= once);
}

/// A write adds the chunk that holds the written voxel to the dirty chunks
/// and leaves the flags of all other chunks as they were.
pub proof fn lemma_write_dirties_its_chunk(w: Map<IVec3, ChunkView>, pos: IVec3, v: Voxel)
    ensures
        dirty_coords(with_voxel(w, pos, v)) == dirty_coords(w).insert(chunk_coord_of(pos)),
{
    assert(dirty_coords(with_voxel(w, pos, v)) =~= dirty_coords(w).insert(chunk_coord_of(pos)));
}

/// Marking a chunk clean takes it out of the dirty chunks, keeps its content,
/// and leaves every other chunk as it was.
pub proof fn lemma_clean_removes_from_dirty(w: Map<IVec3, ChunkView>, c: IVec3)
    ensures
        dirty_coords(with_chunk_clean(w, c)) == dirty_coords(w).remove(c),
        with_chunk_clean(w, c).dom() == w.dom(),
        forall|pos: IVec3| #[trigger] voxel_in(with_chunk_clean(w, c), pos) == voxel_in(w, pos),
{
    assert(dirty_coords(with_chunk_clean(w, c)) =~= dirty_coords(w).remove(c));
    assert(with_chunk_clean(w, c).dom() =~= w.dom());
}

} // verus!
