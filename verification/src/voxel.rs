//! Voxels, voxel volumes and their meshes.
pub mod block;
pub mod volume;
pub mod mesh;
pub mod mesher;
pub mod vox;
