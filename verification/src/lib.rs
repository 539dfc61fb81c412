//! Model and logic of a small tank-demo game: scene-graph queries, material
//! replacement, animation triggering, sprite-grid meshes, and the game's
//! state flow. The host engine's rendering, asset streaming, and scheduling
//! stay outside; this crate holds the decisions the game makes each frame,
//! verified over plain data models of the engine's component storages.

use vstd::prelude::*;

pub mod game;
pub mod grid_of_sprites;
pub mod player;
pub mod replace_material;
pub mod scene;
pub mod systems;
pub mod underground_base;
