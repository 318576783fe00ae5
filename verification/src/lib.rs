//! Deterministic terrain generation: fixed-size heightmap and voxel-column
//! blocks computed from integer world coordinates, with an explicit
//! ownership protocol for handing each block to a caller and releasing it.

pub mod block;
pub mod column;
pub mod heightmap;
