//! Game logic of a hexagonal Pong/Breakout arena: block durability, hex-grid
//! layout, configuration parsing, paddle tracks and the per-tick resolution of
//! contacts.

pub mod block;
pub mod error;
pub mod text;
pub mod controller;
pub mod gamemode;
pub mod arena;
pub mod grid;
pub mod levels;
pub mod themes;
pub mod shape;
