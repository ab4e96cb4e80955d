//! Procedural generation of tile-based terrain zones from a coarse world map.
//!
//! A world map is a grid of biomes read from a textual source. For each cell of
//! that grid the library fills a detailed zone, a grid of terrain tiles, by
//! biome-specific weighted randomness, neighbour-propagated clustering and
//! blending with the adjacent biomes along the zone's border.
//!
//! Two utilities come with it: the values and decisions of the provisioning
//! of accounts and spaces on a Tracim server, and the report of a sprite
//! sheet build. The library computes; reading, writing, sending and waiting
//! are left to its callers.

use vstd::prelude::*;

pub mod map;
pub mod spritesheets;
pub mod text;
pub mod tile;
pub mod tracim;
pub mod util;

verus! {

/// The error of every fallible operation of the library: a message for the user.
#[derive(Debug)]
pub struct RollingError {
    pub message: String,
}

impl RollingError {
    /// An error that carries `message`.
    pub fn new(message: String) -> (error: RollingError)
        ensures
            error.message == message,
    {
        RollingError { message }
    }
}

} // verus!
