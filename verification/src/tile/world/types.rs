//! The biomes of the world map and their identifiers in a legend.

use crate::text::same_text;
use crate::RollingError;
use vstd::prelude::*;
use vstd::string::StringExecFns;

verus! {

/// A coarse terrain category: the biome of one cell of the world map.
#[derive(Clone, Copy, Debug, PartialEq, Eq, Structural)]
pub enum WorldTile {
    Sea,
    Mountain,
    Beach,
    Plain,
    Jungle,
    Hill,
}

/// The biome that a legend identifier names, if it names one.
pub open spec fn tile_for_id(id: Seq<char>) -> Option<WorldTile> {
    if id == "SEA"@ {
        Some(WorldTile::Sea)
    } else if id == "MOUNTAIN"@ {
        Some(WorldTile::Mountain)
    } else if id == "BEACH"@ {
        Some(WorldTile::Beach)
    } else if id == "PLAIN"@ {
        Some(WorldTile::Plain)
    } else if id == "JUNGLE"@ {
        Some(WorldTile::Jungle)
    } else if id == "HILL"@ {
        Some(WorldTile::Hill)
    } else {
        None
    }
}

/// The message of the error for an identifier that names no biome.
pub open spec fn unknown_id_message(id: Seq<char>) -> Seq<char> {
    "No world tile found for id \""@ + id + "\""@
}

/// The biome named by `search_id`. Fails on any identifier but the six known
/// ones, with a message that quotes the identifier.
pub fn get_type(search_id: &str) -> (result: Result<WorldTile, RollingError>)
    ensures
        match result {
            Ok(tile) => tile_for_id(search_id@) == Some(tile),
            Err(e) => tile_for_id(search_id@) is None && e.message@ == unknown_id_message(
                search_id@,
            ),
        },
{
    if same_text(search_id, "SEA") {
        Ok(WorldTile::Sea)
    } else if same_text(search_id, "MOUNTAIN") {
        Ok(WorldTile::Mountain)
    } else if same_text(search_id, "BEACH") {
        Ok(WorldTile::Beach)
    } else if same_text(search_id, "PLAIN") {
        Ok(WorldTile::Plain)
    } else if same_text(search_id, "JUNGLE") {
        Ok(WorldTile::Jungle)
    } else if same_text(search_id, "HILL") {
        Ok(WorldTile::Hill)
    } else {
        let mut message = String::from_str("No world tile found for id \"");
        message.append(search_id);
        message.append("\"");
        Err(RollingError::new(message))
    }
}

} // verus!
