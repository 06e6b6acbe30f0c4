//! The engine core of a tile-map viewer: a camera over a grid of tiles, a
//! cursor, zoom, and the assembly of a map from its decoded parts.

pub mod scalar;
pub mod geometry;
pub mod time;
pub mod event;
pub mod controller;
pub mod map;
pub mod game;
pub mod error;
pub mod loader;
pub mod keys;
