//! World generation and client-side logic of a voxel game.
pub mod build_info;
pub mod controls;
pub mod genfn;
pub mod keybinds;
pub mod shader;
pub mod text;
pub mod ui;
pub mod vec;
pub mod voxel;
pub mod world;
