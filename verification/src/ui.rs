//! The in-game interface.
pub mod state;
pub mod input;
pub mod hud;
pub mod labels;
