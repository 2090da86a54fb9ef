//! Generation of the voxel world.
pub mod gen;
pub mod structure;
pub mod cachegen;
pub mod town;
pub mod chunk;
