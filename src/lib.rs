//! Core logic of a small voxel sandbox: the per-chunk height-field layout and
//! the keyboard-to-heading decisions of the movement controls.

pub mod chunk;
pub mod movement;

pub use chunk::{generate, world_coord, CHUNK_SIZE};
pub use movement::{axis, fly_heading, walk_heading, Heading, MoveKeys};
