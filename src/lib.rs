//! Chunked voxel world storage: coordinate transforms between global voxel,
//! chunk and local space, a sparse store of fixed-size chunks with per-chunk
//! dirty tracking, and the small input and state decisions of the gameplay
//! layer that sits on top of it.

pub mod coords;
pub mod voxel;
pub mod chunk;
pub mod world;
pub mod world_laws;
pub mod movement;
pub mod camera;
pub mod inventory;
pub mod terrain;
