//! The game's per-frame systems, modelled over plain component data.

pub mod debug;
pub mod material_replace;
pub mod ui;
pub mod underground_base_control;
