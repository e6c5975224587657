//! The initial content of the world: a flat ground plane of stone.

use vstd::arithmetic::div_mod::lemma_fundamental_div_mod_converse;
use vstd::prelude::*;

use crate::coords::IVec3;
use crate::voxel::{MaterialId, Voxel};
use crate::world::WorldData;
use crate::world_laws::apply_writes;

verus! {

/// The material the ground is made of.
pub const STONE: u16 = 1;

/// The ground plane spans `[-GROUND_HALF_EXTENT, GROUND_HALF_EXTENT]` along x
/// and along z.
pub const GROUND_HALF_EXTENT: i32 = 16;

/// The y coordinate of the ground plane.
pub const GROUND_LEVEL: i32 = -1;

/// The number of voxels along each side of the ground plane.
pub open spec fn ground_side() -> int {
    2 * GROUND_HALF_EXTENT + 1
}

/// The writes that lay the ground plane, x major and z minor, each setting a
/// voxel of the plane to stone.
pub open spec fn ground_plane_writes() -> Seq<(IVec3, Voxel)> {
    Seq::new(
        (ground_side() * ground_side()) as nat,
        |i: int|
            (
                IVec3 {
                    x: (i / ground_side() - GROUND_HALF_EXTENT) as i32,
                    y: GROUND_LEVEL,
                    z: (i % ground_side() - GROUND_HALF_EXTENT) as i32,
                },
                Voxel(MaterialId(STONE)),
            ),
    )
}

/// Lays the ground plane into the world: every voxel of the plane becomes
/// stone, written in order.
pub fn setup_world(world_data: &mut WorldData)
    ensures
        final(world_data)@ == apply_writes(old(world_data)@, ground_plane_writes()),
{
    let ghost start = world_data@;
    let ghost writes = ground_plane_writes();
    let mut x: i32 = -GROUND_HALF_EXTENT;
    while x <= GROUND_HALF_EXTENT
        invariant
            -GROUND_HALF_EXTENT <= x <= GROUND_HALF_EXTENT + 1,
            writes == ground_plane_writes(),
            world_data@ == apply_writes(
                start,
                writes.take((x + GROUND_HALF_EXTENT) * ground_side()),
            ),
        decreases GROUND_HALF_EXTENT + 1 - x,
    {
        let mut z: i32 = -GROUND_HALF_EXTENT;
        while z <= GROUND_HALF_EXTENT
            invariant
                -GROUND_HALF_EXTENT <= x <= GROUND_HALF_EXTENT,
                -GROUND_HALF_EXTENT <= z <= GROUND_HALF_EXTENT + 1,
                writes == ground_plane_writes(),
                world_data@ == apply_writes(
                    start,
                    writes.take(
                        (x + GROUND_HALF_EXTENT) * ground_side() + (z + GROUND_HALF_EXTENT),
                    ),
                ),
            decreases GROUND_HALF_EXTENT + 1 - z,
        {
            let ghost k = (x + GROUND_HALF_EXTENT) * ground_side() + (z + GROUND_HALF_EXTENT);
            world_data.set_voxel(IVec3::new(x, GROUND_LEVEL, z), Voxel(MaterialId(STONE)));
            proof {
                assert(writes.len() == ground_side() * ground_side());
                assert(k + 1 <= writes.len()) by (nonlinear_arith)
                    requires
                        k == (x + GROUND_HALF_EXTENT) * ground_side() + (z + GROUND_HALF_EXTENT),
                        x <= GROUND_HALF_EXTENT,
                        z <= GROUND_HALF_EXTENT,
                        ground_side() == 2 * GROUND_HALF_EXTENT + 1,
                        writes.len() == ground_side() * ground_side(),
                ;
                lemma_fundamental_div_mod_converse(
                    k,
                    ground_side(),
                    x + GROUND_HALF_EXTENT,
                    z + GROUND_HALF_EXTENT,
                );
                assert(writes.take(k + 1).drop_last() =~= writes.take(k));
                assert(writes.take(k + 1).last() == (
                    IVec3 { x, y: GROUND_LEVEL, z },
                    Voxel(MaterialId(STONE)),
                ));
            }
            z = z + 1;
        }
        assert((x + GROUND_HALF_EXTENT) * ground_side() + ground_side() == (x + 1
            + GROUND_HALF_EXTENT) * ground_side()) by (nonlinear_arith);
        x = x + 1;
    }
    assert(writes.take(writes.len() as int) =~= writes);
}

} // verus!
