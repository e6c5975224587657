use voxel_world::chunk::{Chunk, CHUNK_VOLUME};
use voxel_world::coords::{
    global_voxel_to_chunk_coord, global_voxel_to_local_voxel_coord, IVec3, UVec3, CHUNK_DEPTH,
    CHUNK_HEIGHT, CHUNK_WIDTH,
};
use voxel_world::terrain::setup_world;
use voxel_world::voxel::{MaterialId, Voxel};
use voxel_world::world::WorldData;

#[test]
fn test_global_voxel_to_chunk_coord() {
    // Positive coordinates
    assert_eq!(
        global_voxel_to_chunk_coord(IVec3::new(0, 0, 0)),
        IVec3::new(0, 0, 0)
    );
    assert_eq!(
        global_voxel_to_chunk_coord(IVec3::new(31, 31, 31)),
        IVec3::new(0, 0, 0)
    );
    assert_eq!(
        global_voxel_to_chunk_coord(IVec3::new(32, 32, 32)),
        IVec3::new(1, 1, 1)
    );

    // Negative coordinates
    assert_eq!(
        global_voxel_to_chunk_coord(IVec3::new(-1, -1, -1)),
        IVec3::new(-1, -1, -1)
    );
    assert_eq!(
        global_voxel_to_chunk_coord(IVec3::new(-32, -32, -32)),
        IVec3::new(-1, -1, -1)
    );
    assert_eq!(
        global_voxel_to_chunk_coord(IVec3::new(-33, -33, -33)),
        IVec3::new(-2, -2, -2)
    );
}

#[test]
fn test_global_voxel_to_local_voxel_coord() {
    // Positive coordinates
    assert_eq!(
        global_voxel_to_local_voxel_coord(IVec3::new(0, 0, 0)),
        UVec3::new(0, 0, 0)
    );
    assert_eq!(
        global_voxel_to_local_voxel_coord(IVec3::new(31, 31, 31)),
        UVec3::new(31, 31, 31)
    );
    assert_eq!(
        global_voxel_to_local_voxel_coord(IVec3::new(32, 32, 32)),
        UVec3::new(0, 0, 0)
    );

    // Negative coordinates
    assert_eq!(
        global_voxel_to_local_voxel_coord(IVec3::new(-1, -1, -1)),
        UVec3::new(31, 31, 31)
    );
    assert_eq!(
        global_voxel_to_local_voxel_coord(IVec3::new(-32, -32, -32)),
        UVec3::new(0, 0, 0)
    );
    assert_eq!(
        global_voxel_to_local_voxel_coord(IVec3::new(-33, -33, -33)),
        UVec3::new(31, 31, 31)
    );
}

#[test]
fn test_set_and_get_voxel() {
    let mut world_data = WorldData::default();
    let voxel_pos = IVec3::new(10, 20, 30);
    let voxel_to_set = Voxel(MaterialId(42));

    // 1. Get from empty world
    assert_eq!(world_data.get_voxel(voxel_pos), None);

    // 2. Set a voxel
    world_data.set_voxel(voxel_pos, voxel_to_set);

    // 3. Get the voxel back
    assert_eq!(world_data.get_voxel(voxel_pos), Some(voxel_to_set));

    // 4. Check if chunk was created and is dirty
    let chunk_coord = global_voxel_to_chunk_coord(voxel_pos);
    let chunk = world_data.chunk(chunk_coord).unwrap();
    assert!(chunk.is_dirty());

    let local_coord = global_voxel_to_local_voxel_coord(voxel_pos);
    assert_eq!(chunk.voxel(local_coord), voxel_to_set);
}

#[test]
fn test_set_voxel_creates_chunk() {
    let mut world_data = WorldData::default();
    let voxel_pos = IVec3::new(100, 200, 300);
    let chunk_coord = global_voxel_to_chunk_coord(voxel_pos);

    // Chunk should not exist yet
    assert!(!world_data.contains_chunk(chunk_coord));

    // Set a voxel, which should create the chunk
    world_data.set_voxel(voxel_pos, Voxel(MaterialId(1)));

    // Chunk should now exist
    assert!(world_data.contains_chunk(chunk_coord));
}

fn sample_axis_values() -> Vec<i32> {
    vec![
        i32::MIN,
        i32::MIN + 1,
        -1_000_000,
        -65,
        -64,
        -63,
        -33,
        -32,
        -31,
        -1,
        0,
        1,
        31,
        32,
        33,
        63,
        64,
        1_000_000,
        i32::MAX - 1,
        i32::MAX,
    ]
}

#[test]
fn chunk_and_local_coordinates_rebuild_the_voxel() {
    for &x in &sample_axis_values() {
        for &y in &[-33, -1, 0, 31, 32] {
            for &z in &sample_axis_values() {
                let v = IVec3::new(x, y, z);
                let c = global_voxel_to_chunk_coord(v);
                let l = global_voxel_to_local_voxel_coord(v);
                let rx = c.x as i64 * CHUNK_WIDTH as i64 + l.x as i64;
                let ry = c.y as i64 * CHUNK_HEIGHT as i64 + l.y as i64;
                let rz = c.z as i64 * CHUNK_DEPTH as i64 + l.z as i64;
                assert_eq!((rx, ry, rz), (x as i64, y as i64, z as i64));
            }
        }
    }
}

#[test]
fn chunk_coordinates_at_the_extremes() {
    assert_eq!(
        global_voxel_to_chunk_coord(IVec3::new(i32::MIN, i32::MAX, 0)),
        IVec3::new(-67_108_864, 67_108_863, 0)
    );
    assert_eq!(
        global_voxel_to_local_voxel_coord(IVec3::new(i32::MIN, i32::MAX, 0)),
        UVec3::new(0, 31, 0)
    );
}

#[test]
fn local_coordinates_stay_inside_the_chunk() {
    for a in -200..200 {
        let l = global_voxel_to_local_voxel_coord(IVec3::new(a, -a, a * 7));
        assert!((l.x as usize) < CHUNK_WIDTH);
        assert!((l.y as usize) < CHUNK_HEIGHT);
        assert!((l.z as usize) < CHUNK_DEPTH);
    }
    assert_eq!(
        global_voxel_to_local_voxel_coord(IVec3::new(-1, -32, -33)),
        UVec3::new(31, 0, 31)
    );
}

#[test]
fn absent_differs_from_air() {
    let mut world = WorldData::new();
    let pos = IVec3::new(-5, 7, 40);
    assert_eq!(world.get_voxel(pos), None);
    world.set_voxel(pos, Voxel::air());
    assert_eq!(world.get_voxel(pos), Some(Voxel(MaterialId(0))));
    assert!(world.get_voxel(pos).unwrap().is_air());
}

#[test]
fn write_then_read_and_dirty() {
    let mut world = WorldData::new();
    let pos = IVec3::new(-40, -1, 65);
    world.set_voxel(pos, Voxel(MaterialId(9)));
    assert_eq!(world.get_voxel(pos), Some(Voxel(MaterialId(9))));
    let chunk_coord = IVec3::new(-2, -1, 2);
    assert_eq!(global_voxel_to_chunk_coord(pos), chunk_coord);
    assert!(world.chunk(chunk_coord).unwrap().is_dirty());
    world.set_voxel(pos, Voxel(MaterialId(3)));
    assert_eq!(world.get_voxel(pos), Some(Voxel(MaterialId(3))));
}

#[test]
fn write_leaves_other_voxels_alone() {
    let mut world = WorldData::new();
    world.set_voxel(IVec3::new(1, 2, 3), Voxel(MaterialId(5)));
    world.set_voxel(IVec3::new(1, 2, 4), Voxel(MaterialId(6)));
    assert_eq!(world.get_voxel(IVec3::new(1, 2, 3)), Some(Voxel(MaterialId(5))));
    assert_eq!(world.get_voxel(IVec3::new(1, 2, 4)), Some(Voxel(MaterialId(6))));
    // Same chunk, never written: loaded air.
    assert_eq!(world.get_voxel(IVec3::new(0, 0, 0)), Some(Voxel::air()));
    assert_eq!(world.get_voxel(IVec3::new(31, 31, 31)), Some(Voxel::air()));
    // Neighbouring chunk: absent.
    assert_eq!(world.get_voxel(IVec3::new(32, 2, 3)), None);
    assert_eq!(world.get_voxel(IVec3::new(-1, 2, 3)), None);
}

#[test]
fn reads_do_not_create_chunks() {
    let world = WorldData::new();
    for a in -40..40 {
        assert_eq!(world.get_voxel(IVec3::new(a, a, a)), None);
    }
    assert!(!world.contains_chunk(IVec3::new(0, 0, 0)));
    assert!(!world.contains_chunk(IVec3::new(-1, -1, -1)));
    assert!(world.dirty_chunks().is_empty());
}

#[test]
fn chunks_appear_only_where_written() {
    let mut world = WorldData::new();
    assert!(!world.contains_chunk(IVec3::new(0, 0, 0)));
    world.set_voxel(IVec3::new(31, 0, 0), Voxel(MaterialId(2)));
    assert!(world.contains_chunk(IVec3::new(0, 0, 0)));
    assert!(!world.contains_chunk(IVec3::new(1, 0, 0)));
    assert!(world.chunk(IVec3::new(1, 0, 0)).is_none());
    world.set_voxel(IVec3::new(32, 0, 0), Voxel(MaterialId(2)));
    assert!(world.contains_chunk(IVec3::new(1, 0, 0)));
}

#[test]
fn same_value_still_dirties() {
    let mut world = WorldData::new();
    let pos = IVec3::new(3, 3, 3);
    let chunk_coord = IVec3::new(0, 0, 0);
    world.set_voxel(pos, Voxel(MaterialId(7)));
    world.set_voxel(pos, Voxel(MaterialId(7)));
    assert!(world.chunk(chunk_coord).unwrap().is_dirty());
    world.mark_chunk_clean(chunk_coord);
    assert!(!world.chunk(chunk_coord).unwrap().is_dirty());
    assert_eq!(world.get_voxel(pos), Some(Voxel(MaterialId(7))));
    world.set_voxel(pos, Voxel(MaterialId(7)));
    assert!(world.chunk(chunk_coord).unwrap().is_dirty());
}

#[test]
fn marking_an_absent_chunk_clean_does_nothing() {
    let mut world = WorldData::new();
    world.mark_chunk_clean(IVec3::new(4, 4, 4));
    assert!(!world.contains_chunk(IVec3::new(4, 4, 4)));
    assert!(world.dirty_chunks().is_empty());
}

#[test]
fn dirty_chunks_lists_each_dirty_chunk_once() {
    let mut world = WorldData::new();
    world.set_voxel(IVec3::new(0, 0, 0), Voxel(MaterialId(1)));
    world.set_voxel(IVec3::new(1, 1, 1), Voxel(MaterialId(1)));
    world.set_voxel(IVec3::new(-1, 0, 0), Voxel(MaterialId(1)));
    world.set_voxel(IVec3::new(i32::MIN, i32::MAX, i32::MIN), Voxel(MaterialId(1)));
    let mut dirty = world.dirty_chunks();
    dirty.sort_by_key(|c| (c.x, c.y, c.z));
    assert_eq!(
        dirty,
        vec![
            IVec3::new(-67_108_864, 67_108_863, -67_108_864),
            IVec3::new(-1, 0, 0),
            IVec3::new(0, 0, 0),
        ]
    );
    world.mark_chunk_clean(IVec3::new(0, 0, 0));
    let mut dirty = world.dirty_chunks();
    dirty.sort_by_key(|c| (c.x, c.y, c.z));
    assert_eq!(
        dirty,
        vec![IVec3::new(-67_108_864, 67_108_863, -67_108_864), IVec3::new(-1, 0, 0)]
    );
}

#[test]
fn extreme_coordinates_round_trip_through_the_store() {
    let mut world = WorldData::new();
    let corners = [
        IVec3::new(i32::MIN, i32::MIN, i32::MIN),
        IVec3::new(i32::MAX, i32::MAX, i32::MAX),
        IVec3::new(i32::MIN, 0, i32::MAX),
    ];
    for (i, &p) in corners.iter().enumerate() {
        world.set_voxel(p, Voxel(MaterialId(i as u16 + 10)));
    }
    for (i, &p) in corners.iter().enumerate() {
        assert_eq!(world.get_voxel(p), Some(Voxel(MaterialId(i as u16 + 10))));
    }
}

#[test]
fn new_chunk_is_air_and_dirty() {
    let chunk = Chunk::default();
    assert!(chunk.is_dirty());
    assert_eq!(CHUNK_VOLUME, 32 * 32 * 32);
    assert_eq!(chunk.voxel(UVec3::new(0, 0, 0)), Voxel::air());
    assert_eq!(chunk.voxel(UVec3::new(31, 31, 31)), Voxel::default());
    let mut cleaned = chunk.clone();
    cleaned.mark_clean();
    assert!(!cleaned.is_dirty());
    assert!(chunk.is_dirty());
}

#[test]
fn material_zero_is_air() {
    assert!(MaterialId::default().is_air());
    assert!(MaterialId::air().is_air());
    assert!(!MaterialId(1).is_air());
    assert!(!Voxel(MaterialId(42)).is_air());
}

#[test]
fn end_to_end_store_scenario() {
    let mut world = WorldData::default();
    let pos = IVec3::new(10, 20, 30);
    assert_eq!(world.get_voxel(pos), None);
    world.set_voxel(pos, Voxel(MaterialId(42)));
    assert_eq!(world.get_voxel(pos), Some(Voxel(MaterialId(42))));
    assert!(world.contains_chunk(IVec3::new(0, 0, 0)));
    assert!(world.chunk(IVec3::new(0, 0, 0)).unwrap().is_dirty());
    assert_eq!(world.dirty_chunks(), vec![IVec3::new(0, 0, 0)]);
}

#[test]
fn ground_plane_is_stone() {
    let mut world = WorldData::new();
    setup_world(&mut world);
    for x in -16..=16 {
        for z in -16..=16 {
            assert_eq!(
                world.get_voxel(IVec3::new(x, -1, z)),
                Some(Voxel(MaterialId(1)))
            );
        }
    }
    assert_eq!(world.get_voxel(IVec3::new(17, -1, 0)), Some(Voxel::air()));
    assert_eq!(world.get_voxel(IVec3::new(0, 0, 0)), None);
    assert_eq!(world.get_voxel(IVec3::new(0, -2, 0)), Some(Voxel::air()));
    let mut dirty = world.dirty_chunks();
    dirty.sort_by_key(|c| (c.x, c.y, c.z));
    assert_eq!(
        dirty,
        vec![
            IVec3::new(-1, -1, -1),
            IVec3::new(-1, -1, 0),
            IVec3::new(0, -1, -1),
            IVec3::new(0, -1, 0),
        ]
    );
}
