//! Terrain tiles of a zone.

pub mod types;
