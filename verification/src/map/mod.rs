//! The world map and the generation of its zones.

pub mod generator;
pub mod world;
