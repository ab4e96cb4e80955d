//! The world: a grid of biomes, read from the `GEO` block of a source text
//! through a legend.

use crate::text::{
    chars_of, is_one_line, lines_hold_no_line_feed, lines_of, rows_of, split_lines,
};
use crate::tile::world::legend::{no_match_message, WorldMapLegend};
use crate::tile::world::types::WorldTile;
use crate::util::{block_not_found_message, block_of, extract_block_from_source, BLOCK_GEO};
use crate::RollingError;
use vstd::prelude::*;

verus! {

/// The first character of `line` at or after `from` that the legend `tiles`
/// does not hold, if there is one.
pub open spec fn unmapped_from(tiles: Map<u32, WorldTile>, line: Seq<char>, from: int) -> Option<
    char,
>
    decreases line.len() - from,
{
    if from < 0 || from >= line.len() {
        None
    } else if !tiles.contains_key(line[from] as u32) {
        Some(line[from])
    } else {
        unmapped_from(tiles, line, from + 1)
    }
}

/// The first character of `lines[from..]`, line by line, that the legend
/// `tiles` does not hold, if there is one.
pub open spec fn first_unmapped(tiles: Map<u32, WorldTile>, lines: Seq<Seq<char>>, from: int)
    -> Option<char>
    decreases lines.len() - from,
{
    if from < 0 || from >= lines.len() {
        None
    } else {
        match unmapped_from(tiles, lines[from], 0) {
            Some(c) => Some(c),
            None => first_unmapped(tiles, lines, from + 1),
        }
    }
}

/// A world: the biome of each cell, and the character that the source text
/// has for it.
pub struct World<'a> {
    /// The legend that the world was read through.
    pub legend: &'a WorldMapLegend,
    /// The biomes, row by row.
    pub rows: Vec<Vec<WorldTile>>,
    /// The characters of the source, row by row: as many as biomes.
    pub geo_chars: Vec<Vec<char>>,
}

impl<'a> World<'a> {
    /// The biome of the cell `(row, col)`, if the world has such a cell.
    pub open spec fn biome_at(&self, row: int, col: int) -> Option<WorldTile> {
        if 0 <= row < self.rows@.len() && 0 <= col < self.rows@[row]@.len() {
            Some(self.rows@[row]@[col])
        } else {
            None
        }
    }

    /// Whether the biomes and the characters have the same shape, each biome
    /// is the one that the legend has for its character, and no character is
    /// a line feed.
    pub open spec fn well_formed(&self) -> bool {
        &&& self.rows@.len() == self.geo_chars@.len()
        &&& forall|r: int|
            0 <= r < self.geo_chars@.len() ==> is_one_line((#[trigger] self.geo_chars@[r])@)
        &&& forall|r: int|
            0 <= r < self.rows@.len() ==> (#[trigger] self.rows@[r])@.len()
                == self.geo_chars@[r]@.len()
        &&& forall|r: int, c: int|
            0 <= r < self.rows@.len() && 0 <= c < self.rows@[r]@.len()
                ==> self.legend.tile_of(#[trigger] self.geo_chars@[r]@[c]) == Some(
                self.rows@[r]@[c],
            )
    }

    /// The world that the `GEO` block of `source` draws: one row per line of
    /// the block, one cell per character, each with the biome that `legend`
    /// has for the character. Fails where the source has no such block, and
    /// at the first character that the legend does not hold.
    pub fn new<'b>(source: &String, legend: &'b WorldMapLegend) -> (result: Result<
        World<'b>,
        RollingError,
    >)
        ensures
            match result {
                Ok(world) => block_of(source@, BLOCK_GEO@) matches Some(block) && first_unmapped(
                    legend.tiles@,
                    lines_of(block),
                    0,
                ) is None && rows_of(world.geo_chars@) == lines_of(block) && world.well_formed()
                    && world.legend == legend,
                Err(e) => match block_of(source@, BLOCK_GEO@) {
                    None => e.message@ == block_not_found_message(BLOCK_GEO@),
                    Some(block) => first_unmapped(legend.tiles@, lines_of(block), 0) matches Some(
                        c,
                    ) && e.message@ == no_match_message(c),
                },
            },
    {
        let geo_source = match extract_block_from_source(BLOCK_GEO, source) {
            Ok(block) => block,
            Err(e) => {
                return Err(e);
            },
        };
        let text = chars_of(geo_source.as_str());
        let lines = split_lines(&text);
        let ghost all = lines_of(geo_source@);
        let mut rows: Vec<Vec<WorldTile>> = Vec::new();
        let mut geo_chars: Vec<Vec<char>> = Vec::new();

        for i in 0..lines.len()
            invariant
                rows_of(lines@) == all,
                block_of(source@, BLOCK_GEO@) == Some(geo_source@),
                all == lines_of(geo_source@),
                first_unmapped(legend.tiles@, all, 0) == first_unmapped(
                    legend.tiles@,
                    all,
                    i as int,
                ),
                rows@.len() == i,
                geo_chars@.len() == i,
                forall|r: int| 0 <= r < i ==> (#[trigger] geo_chars@[r])@ == all[r],
                forall|r: int| 0 <= r < i ==> (#[trigger] rows@[r])@.len() == all[r].len(),
                forall|r: int, c: int|
                    0 <= r < i && 0 <= c < all[r].len() ==> legend.tile_of(
                        #[trigger] all[r][c],
                    ) == Some(rows@[r]@[c]),
        {
            let line = &lines[i];
            assert(line@ == all[i as int]);
            let mut row: Vec<WorldTile> = Vec::new();
            let mut row_chars: Vec<char> = Vec::new();
            for j in 0..line.len()
                invariant
                    line@ == all[i as int],
                    0 <= i < all.len(),
                    block_of(source@, BLOCK_GEO@) == Some(geo_source@),
                    all == lines_of(geo_source@),
                    first_unmapped(legend.tiles@, all, 0) == first_unmapped(
                        legend.tiles@,
                        all,
                        i as int,
                    ),
                    unmapped_from(legend.tiles@, line@, 0) == unmapped_from(
                        legend.tiles@,
                        line@,
                        j as int,
                    ),
                    row@.len() == j,
                    row_chars@ == line@.take(j as int),
                    forall|c: int|
                        0 <= c < j ==> legend.tile_of(#[trigger] line@[c]) == Some(row@[c]),
            {
                let raw_char = line[j];
                let world_tile = match legend.get_type(raw_char) {
                    Ok(world_tile) => *world_tile,
                    Err(e) => {
                        return Err(e);
                    },
                };
                row.push(world_tile);
                row_chars.push(raw_char);
                assert(line@.take(j + 1) == line@.take(j as int).push(raw_char));
            }
            assert(line@.take(line@.len() as int) == line@);
            rows.push(row);
            geo_chars.push(row_chars);
        }
        assert(rows_of(geo_chars@) =~= all);
        proof {
            lines_hold_no_line_feed(geo_source@, 0, Seq::empty());
        }
        Ok(World { legend, rows, geo_chars })
    }

    /// Whether the world is well formed: whether biomes and characters have
    /// the same shape, each biome is the one that the legend has for its
    /// character, and no character is a line feed.
    pub fn is_well_formed(&self) -> (sound: bool)
        ensures
            sound == self.well_formed(),
    {
        if self.rows.len() != self.geo_chars.len() {
            return false;
        }
        for r in 0..self.rows.len()
            invariant
                self.rows@.len() == self.geo_chars@.len(),
                forall|i: int|
                    0 <= i < r ==> is_one_line((#[trigger] self.geo_chars@[i])@),
                forall|i: int|
                    0 <= i < r ==> (#[trigger] self.rows@[i])@.len() == self.geo_chars@[i]@.len(),
                forall|i: int, c: int|
                    0 <= i < r && 0 <= c < self.rows@[i]@.len() ==> self.legend.tile_of(
                        #[trigger] self.geo_chars@[i]@[c],
                    ) == Some(self.rows@[i]@[c]),
        {
            let row = &self.rows[r];
            let row_chars = &self.geo_chars[r];
            if row.len() != row_chars.len() {
                return false;
            }
            for c in 0..row.len()
                invariant
                    0 <= r < self.rows@.len(),
                    self.rows@.len() == self.geo_chars@.len(),
                    row@ == self.rows@[r as int]@,
                    row_chars@ == self.geo_chars@[r as int]@,
                    row@.len() == row_chars@.len(),
                    forall|j: int| 0 <= j < c ==> row_chars@[j] != '\n',
                    forall|j: int|
                        0 <= j < c ==> self.legend.tile_of(#[trigger] row_chars@[j]) == Some(
                            row@[j],
                        ),
            {
                if row_chars[c] == '\n' {
                    assert(!is_one_line(self.geo_chars@[r as int]@));
                    return false;
                }
                match self.legend.get_type(row_chars[c]) {
                    Ok(tile) => {
                        if *tile != row[c] {
                            assert(self.legend.tile_of(self.geo_chars@[r as int]@[c as int])
                                != Some(self.rows@[r as int]@[c as int]));
                            return false;
                        }
                    },
                    Err(_) => {
                        assert(self.legend.tile_of(self.geo_chars@[r as int]@[c as int])
                            != Some(self.rows@[r as int]@[c as int]));
                        return false;
                    },
                }
            }
        }
        true
    }

    /// The biome of the cell `(row, col)`, if the world has such a cell.
    pub fn get_tile(&self, row: usize, col: usize) -> (tile: Option<WorldTile>)
        ensures
            tile == self.biome_at(row as int, col as int),
    {
        if row >= self.rows.len() {
            return None;
        }
        if col >= self.rows[row].len() {
            return None;
        }
        Some(self.rows[row][col])
    }
}

} // verus!
