//! The tile vocabularies: biomes of the world map and terrain tiles of a zone.

pub mod world;
pub mod zone;
