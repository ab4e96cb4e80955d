//! Biomes of the world map and the legend that names them.

pub mod legend;
pub mod types;
