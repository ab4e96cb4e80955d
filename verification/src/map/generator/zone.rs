//! The fill of one zone.
//!
//! A zone is painted position by position, row by row. A position outside the
//! zone's octagon stays blank. Inside, a border position next to a biome that
//! the policy lets overflow takes that biome's tile; else a tile already
//! painted nearby may propagate; else the tile is drawn from the policy's
//! weighted table. Weights are integers, in hundredths.

use super::random::{
    draw_below, draw_weighted, rng_state, seeded_rng, seeded_state, total_weight, uniform_draw,
    weighted_draw, weighted_table, table_weights, WeightTable,
};
use super::shape::{border_at, is_in_border, is_out_zone, out_of_zone, Border};
use crate::map::world::World;
use crate::text::{join_lines, join_rows, rows_of, string_of};
use crate::tile::world::types::WorldTile;
use crate::tile::zone::types::{get_char_for_tile, tile_char, ZoneTile};
use crate::util::{above_holds, ends_in, last_char_is, top_chars_contains};
use rand::rngs::StdRng;
use vstd::prelude::*;
use vstd::string::StringExecFns;

verus! {

/// The weight of a policy's default tile, in hundredths: 100 units.
pub const DEFAULT_WEIGHT: u32 = 10000;

/// The depth of the border bands in which a neighbouring biome may overflow.
pub const BORDER_SPACING: u32 = 2;

/// The bound of the draw that decides whether a tile propagates: one hundred
/// percent.
pub const PERCENT: u32 = 100;

/// The character of a position outside the zone's octagon.
pub const BLANK: char = ' ';

/// A propagation rule: next to a painted `near`, paint `tile` with a
/// probability of `probability` percent.
#[derive(Clone, Copy, Debug, PartialEq, Eq, Structural)]
pub struct RandomNear {
    pub near: ZoneTile,
    pub tile: ZoneTile,
    pub probability: u32,
}

/// An overflow rule: in a border band that faces a zone of biome
/// `world_tile`, up to `depth` deep, paint `default_tile`.
#[derive(Clone, Copy, Debug, PartialEq, Eq, Structural)]
pub struct Overflow {
    pub world_tile: WorldTile,
    pub default_tile: ZoneTile,
    pub depth: u32,
}

/// The generation policy of a biome, with the world that its zones lie in.
pub struct DefaultGenerator<'a> {
    pub world: &'a World<'a>,
    /// The tile that the weighted table always holds, with `DEFAULT_WEIGHT`.
    pub default_tile: ZoneTile,
    /// The other tiles of the weighted table, each with its weight in
    /// hundredths.
    pub random: Option<Vec<(u32, ZoneTile)>>,
    /// The propagation rules, tried in order.
    pub random_near: Option<Vec<RandomNear>>,
    /// The overflow rules, tried in order.
    pub allow_overflow: Option<Vec<Overflow>>,
}

impl RandomNear {
    /// Whether the rule paints its tile on a draw of `draw` out of
    /// `0..PERCENT`.
    pub open spec fn fires_on(&self, draw: u32) -> bool {
        draw < self.probability
    }

    /// Whether the rule paints its tile on a draw of `draw` out of
    /// `0..PERCENT`: on `probability` of the hundred draws.
    pub fn fires(&self, draw: u32) -> (fired: bool)
        ensures
            fired == self.fires_on(draw),
    {
        draw < self.probability
    }
}

impl Overflow {
    /// Whether the rule applies to a band `depth` deep that faces `biome`.
    pub open spec fn applies_to(&self, biome: WorldTile, depth: u32) -> bool {
        self.world_tile == biome && depth <= self.depth
    }
}

/// The cell of the world that a border band of the zone `(row, col)` faces.
pub open spec fn neighbour_of(border: Border, row: int, col: int) -> (int, int) {
    match border {
        Border::TopLeft(_) => (row - 1, col - 1),
        Border::Top(_) => (row - 1, col),
        Border::TopRight(_) => (row - 1, col + 1),
        Border::Left(_) => (row, col - 1),
        Border::Right(_) => (row, col + 1),
        Border::BottomLeft(_) => (row + 1, col - 1),
        Border::Bottom(_) => (row + 1, col),
        Border::BottomRight(_) => (row + 1, col + 1),
    }
}

/// The biome of the zone that a border band of the zone `(row, col)` faces,
/// if the world has a zone there.
pub open spec fn near_biome(world: &World, border: Border, row: int, col: int) -> Option<
    WorldTile,
> {
    let cell = neighbour_of(border, row, col);
    world.biome_at(cell.0, cell.1)
}

/// The tile of the first of `rules[from..]` that applies to a band `depth`
/// deep that faces `biome`, if one does.
pub open spec fn overflow_tile(rules: Seq<Overflow>, biome: WorldTile, depth: u32, from: int)
    -> Option<ZoneTile>
    decreases rules.len() - from,
{
    if from < 0 || from >= rules.len() {
        None
    } else if rules[from].applies_to(biome, depth) {
        Some(rules[from].default_tile)
    } else {
        overflow_tile(rules, biome, depth, from + 1)
    }
}

/// Whether `c` was painted just before the next position of the grid `rows`:
/// to its left, or above it, straight or diagonally.
pub open spec fn is_around(c: char, rows: Seq<Seq<char>>) -> bool {
    ends_in(c, rows) || above_holds(c, rows)
}

/// What the propagation rules `rules[from..]` paint at the next position of
/// the grid `rows`, from a generator in `state`: the tile, if a rule fires,
/// and the state left behind. Each rule whose `near` tile is around takes one
/// draw; the first that fires on its draw paints.
pub open spec fn near_outcome(
    rules: Seq<RandomNear>,
    rows: Seq<Seq<char>>,
    state: Seq<u8>,
    from: int,
) -> (Option<ZoneTile>, Seq<u8>)
    decreases rules.len() - from,
{
    if from < 0 || from >= rules.len() {
        (None, state)
    } else if is_around(tile_char(rules[from].near), rows) {
        let draw = uniform_draw(state, PERCENT);
        if rules[from].fires_on(draw.0) {
            (Some(rules[from].tile), draw.1)
        } else {
            near_outcome(rules, rows, draw.1, from + 1)
        }
    } else {
        near_outcome(rules, rows, state, from + 1)
    }
}

/// The tile at `index` of `choices`, or the first where there is no such
/// index.
pub open spec fn choice_at(choices: Seq<ZoneTile>, index: int) -> ZoneTile {
    if 0 <= index < choices.len() {
        choices[index]
    } else {
        choices[0]
    }
}

/// A policy as plain values: what the fill reads of a generator, besides the
/// world.
pub struct Policy {
    /// The tile that the weighted table always holds, with `DEFAULT_WEIGHT`.
    pub default_tile: ZoneTile,
    /// The other entries of the weighted table.
    pub random: Seq<(u32, ZoneTile)>,
    /// The propagation rules, in order.
    pub near: Seq<RandomNear>,
    /// The overflow rules, in order.
    pub overflow: Seq<Overflow>,
}

impl<'a> View for DefaultGenerator<'a> {
    type V = Policy;

    /// The policy of the generator. A list that is absent counts as empty.
    open spec fn view(&self) -> Policy {
        Policy {
            default_tile: self.default_tile,
            random: match self.random {
                Some(entries) => entries@,
                None => Seq::empty(),
            },
            near: match self.random_near {
                Some(rules) => rules@,
                None => Seq::empty(),
            },
            overflow: match self.allow_overflow {
                Some(rules) => rules@,
                None => Seq::empty(),
            },
        }
    }
}

impl<'a> DefaultGenerator<'a> {
    /// Whether the weights of the generator's table can be summed.
    pub open spec fn well_formed(&self) -> bool {
        self@.well_formed()
    }
}

impl Policy {
    /// The weights of the weighted table: that of the default tile, then
    /// those of the other entries.
    pub open spec fn weights(self) -> Seq<u32> {
        seq![DEFAULT_WEIGHT] + self.random.map_values(|e: (u32, ZoneTile)| e.0)
    }

    /// The tiles of the weighted table: the default tile, then those of the
    /// other entries.
    pub open spec fn choices(self) -> Seq<ZoneTile> {
        seq![self.default_tile] + self.random.map_values(|e: (u32, ZoneTile)| e.1)
    }

    /// Whether the weights of the table can be summed: whether their total
    /// fits in `u32`.
    pub open spec fn well_formed(self) -> bool {
        total_weight(self.weights()) <= u32::MAX
    }

    /// The tile that overflows into a position with border band `border` of
    /// the zone `(zone_row, zone_col)` of `world`, if one does: the tile of
    /// the first overflow rule that applies to the band and the biome it
    /// faces.
    pub open spec fn overflow_at(
        self,
        world: &World,
        border: Option<Border>,
        zone_row: int,
        zone_col: int,
    ) -> Option<ZoneTile> {
        match border {
            None => None,
            Some(band) => match near_biome(world, band, zone_row, zone_col) {
                None => None,
                Some(biome) => overflow_tile(self.overflow, biome, band.depth(), 0),
            },
        }
    }

    /// What is painted at `(row, col)` of a `width` by `height` zone at
    /// `(zone_row, zone_col)` of `world`, where `rows` is the grid painted so
    /// far and `state` the state of the generator: the character, and the
    /// state left behind.
    pub open spec fn cell_outcome(
        self,
        world: &World,
        width: int,
        height: int,
        zone_row: int,
        zone_col: int,
        rows: Seq<Seq<char>>,
        state: Seq<u8>,
        row: int,
        col: int,
    ) -> (char, Seq<u8>) {
        if out_of_zone(width, height, row, col) {
            (BLANK, state)
        } else {
            match self.overflow_at(
                world,
                border_at(width, height, row, col, BORDER_SPACING as int),
                zone_row,
                zone_col,
            ) {
                Some(tile) => (tile_char(tile), state),
                None => {
                    let near = near_outcome(self.near, rows, state, 0);
                    match near.0 {
                        Some(tile) => (tile_char(tile), near.1),
                        None => {
                            let draw = weighted_draw(near.1, self.weights());
                            (tile_char(choice_at(self.choices(), draw.0 as int)), draw.1)
                        },
                    }
                },
            }
        }
    }

    /// The first `n` characters of the row `row` of the zone, painted below
    /// the rows `above` from a generator in `state`, and the state left
    /// behind.
    pub open spec fn fill_row(
        self,
        world: &World,
        width: int,
        height: int,
        zone_row: int,
        zone_col: int,
        above: Seq<Seq<char>>,
        state: Seq<u8>,
        row: int,
        n: nat,
    ) -> (Seq<char>, Seq<u8>)
        decreases n,
    {
        if n == 0 {
            (Seq::empty(), state)
        } else {
            let before = self.fill_row(
                world,
                width,
                height,
                zone_row,
                zone_col,
                above,
                state,
                row,
                (n - 1) as nat,
            );
            let cell = self.cell_outcome(
                world,
                width,
                height,
                zone_row,
                zone_col,
                above.push(before.0),
                before.1,
                row,
                n - 1,
            );
            (before.0.push(cell.0), cell.1)
        }
    }

    /// The first `n` rows of the zone, painted from a generator in `state`,
    /// and the state left behind.
    pub open spec fn fill_rows(
        self,
        world: &World,
        width: int,
        height: int,
        zone_row: int,
        zone_col: int,
        state: Seq<u8>,
        n: nat,
    ) -> (Seq<Seq<char>>, Seq<u8>)
        decreases n,
    {
        if n == 0 {
            (Seq::empty(), state)
        } else {
            let above = self.fill_rows(
                world,
                width,
                height,
                zone_row,
                zone_col,
                state,
                (n - 1) as nat,
            );
            let last = self.fill_row(
                world,
                width,
                height,
                zone_row,
                zone_col,
                above.0,
                above.1,
                n - 1,
                width as nat,
            );
            (above.0.push(last.0), last.1)
        }
    }

    /// The rows of the `width` by `height` zone at `(zone_row, zone_col)` of
    /// `world`, painted from a generator in `state`.
    pub open spec fn zone_rows(
        self,
        world: &World,
        width: int,
        height: int,
        zone_row: int,
        zone_col: int,
        state: Seq<u8>,
    ) -> Seq<Seq<char>> {
        self.fill_rows(world, width, height, zone_row, zone_col, state, height as nat).0
    }
}

/// The header of a zone's text.
pub open spec fn zone_header() -> Seq<char> {
    "::GEO\n"@
}

/// The text of a zone: the header, then the rows joined by line feeds.
pub open spec fn zone_text(rows: Seq<Seq<char>>) -> Seq<char> {
    zone_header() + join_lines(rows)
}

/// The grid `rows` with `c` painted at its next position: at the end of its
/// last row.
pub open spec fn painted_onto(rows: Seq<Seq<char>>, c: char) -> Seq<Seq<char>> {
    rows.drop_last().push(rows.last().push(c))
}

/// The sum of some weights is at least each of them.
pub proof fn total_weight_covers(weights: Seq<u32>, i: int)
    requires
        0 <= i < weights.len(),
    ensures
        total_weight(weights) >= weights[i],
        total_weight(weights) >= 0,
    decreases weights.len(),
{
    if weights.len() > 1 {
        if i < weights.len() - 1 {
            total_weight_covers(weights.drop_last(), i);
        } else {
            total_weight_covers(weights.drop_last(), 0);
        }
    } else {
        assert(total_weight(weights.drop_last()) == 0);
    }
}

/// The biome of the cell `(row, col)` of the world, if the world has such a
/// cell.
fn world_tile_at(world: &World, row: i64, col: i64) -> (tile: Option<WorldTile>)
    ensures
        tile == world.biome_at(row as int, col as int),
{
    if row < 0 || col < 0 {
        return None;
    }
    if row as u64 >= world.rows.len() as u64 {
        return None;
    }
    let r: usize = row as usize;
    if col as u64 >= world.rows[r].len() as u64 {
        return None;
    }
    Some(world.rows[r][col as usize])
}

/// The biome of the zone `(zone_row_i, zone_col_i)` of the world, if the
/// world has such a zone.
pub fn get_world_tile(world: &World, zone_row_i: u32, zone_col_i: u32) -> (tile: Option<WorldTile>)
    ensures
        tile == world.biome_at(zone_row_i as int, zone_col_i as int),
{
    world_tile_at(world, zone_row_i as i64, zone_col_i as i64)
}

/// The biome of the zone that the band `border` of the zone
/// `(ref_row_i, ref_col_i)` faces. A band that faces beyond the world has
/// none.
pub fn get_near_zone(world: &World, border: Border, ref_row_i: u32, ref_col_i: u32) -> (tile:
    Option<WorldTile>)
    ensures
        tile == near_biome(world, border, ref_row_i as int, ref_col_i as int),
{
    let row: i64 = ref_row_i as i64;
    let col: i64 = ref_col_i as i64;
    match border {
        Border::TopLeft(_) => world_tile_at(world, row - 1, col - 1),
        Border::Top(_) => world_tile_at(world, row - 1, col),
        Border::TopRight(_) => world_tile_at(world, row - 1, col + 1),
        Border::Left(_) => world_tile_at(world, row, col - 1),
        Border::Right(_) => world_tile_at(world, row, col + 1),
        Border::BottomLeft(_) => world_tile_at(world, row + 1, col - 1),
        Border::Bottom(_) => world_tile_at(world, row + 1, col),
        Border::BottomRight(_) => world_tile_at(world, row + 1, col + 1),
    }
}

/// Whether `searched_char` was painted just before the next position of
/// `chars`: to its left, or above it, straight or diagonally.
pub fn is_there_around(searched_char: char, chars: &Vec<Vec<char>>) -> (around: bool)
    ensures
        around == is_around(searched_char, rows_of(chars@)),
{
    last_char_is(searched_char, chars) || top_chars_contains(searched_char, chars)
}

/// Paints `c` at the next position of `chars`.
fn paint(chars: &mut Vec<Vec<char>>, c: char)
    requires
        old(chars)@.len() > 0,
    ensures
        rows_of(final(chars)@) == painted_onto(rows_of(old(chars)@), c),
        final(chars)@.len() == old(chars)@.len(),
{
    let last: usize = chars.len() - 1;
    chars[last].push(c);
    assert(rows_of(chars@) =~= painted_onto(rows_of(old(chars)@), c));
}

/// Lets the propagation rules paint the next position of `chars`: each rule
/// whose `near` tile is around takes one draw out of `0..PERCENT`, and the
/// first that fires paints its tile. Says whether one painted.
fn fill_with_random_nears(
    random_nears: &Vec<RandomNear>,
    chars: &mut Vec<Vec<char>>,
    rng: &mut StdRng,
) -> (painted: bool)
    requires
        old(chars)@.len() > 0,
    ensures
        ({
            let outcome = near_outcome(
                random_nears@,
                rows_of(old(chars)@),
                rng_state(*old(rng)),
                0,
            );
            &&& rng_state(*final(rng)) == outcome.1
            &&& painted == outcome.0 is Some
            &&& final(chars)@.len() == old(chars)@.len()
            &&& match outcome.0 {
                Some(tile) => rows_of(final(chars)@) == painted_onto(
                    rows_of(old(chars)@),
                    tile_char(tile),
                ),
                None => final(chars)@ == old(chars)@,
            }
        }),
{
    let ghost rows = rows_of(chars@);
    let ghost state = rng_state(*rng);
    for i in 0..random_nears.len()
        invariant
            chars@ == old(chars)@,
            rows == rows_of(chars@),
            state == rng_state(*old(rng)),
            chars@.len() > 0,
            near_outcome(random_nears@, rows, state, 0) == near_outcome(
                random_nears@,
                rows,
                rng_state(*rng),
                i as int,
            ),
    {
        let random_near = &random_nears[i];
        let searched_char = get_char_for_tile(&random_near.near);
        if is_there_around(searched_char, chars) {
            let random = draw_below(rng, PERCENT);
            if random_near.fires(random) {
                let tile_char = get_char_for_tile(&random_near.tile);
                paint(chars, tile_char);
                return true;
            }
        }
    }
    false
}

impl<'a> DefaultGenerator<'a> {
    /// The tile that overflows into a position with border band `border` of
    /// the zone `(zone_row_i, zone_col_i)`, if one does.
    pub fn overflow_for(&self, border: Option<Border>, zone_row_i: u32, zone_col_i: u32) -> (tile:
        Option<ZoneTile>)
        ensures
            tile == self@.overflow_at(self.world, border, zone_row_i as int, zone_col_i as int),
    {
        let band = match border {
            Some(band) => band,
            None => {
                return None;
            },
        };
        let biome = match get_near_zone(self.world, band, zone_row_i, zone_col_i) {
            Some(biome) => biome,
            None => {
                return None;
            },
        };
        let rules = match &self.allow_overflow {
            Some(rules) => rules,
            None => {
                return None;
            },
        };
        let depth = band.get_depth();
        for i in 0..rules.len()
            invariant
                rules@ == self@.overflow,
                border == Some(band),
                depth == band.depth(),
                near_biome(self.world, band, zone_row_i as int, zone_col_i as int) == Some(biome),
                overflow_tile(rules@, biome, depth, 0) == overflow_tile(
                    rules@,
                    biome,
                    depth,
                    i as int,
                ),
        {
            if rules[i].world_tile == biome && depth <= rules[i].depth {
                return Some(rules[i].default_tile);
            }
        }
        None
    }

    /// The tile at `index` of the weighted table: the default tile at 0, then
    /// the tiles of the other entries; the default tile too where the table
    /// has no such index.
    pub fn tile_choice(&self, index: usize) -> (tile: ZoneTile)
        ensures
            tile == choice_at(self@.choices(), index as int),
    {
        match &self.random {
            Some(entries) => {
                if 0 < index && index - 1 < entries.len() {
                    entries[index - 1].1
                } else {
                    self.default_tile
                }
            },
            None => self.default_tile,
        }
    }

    /// The weights of the weighted table, in order.
    pub fn table_of_weights(&self) -> (weights: Vec<u32>)
        ensures
            weights@ == self@.weights(),
    {
        let mut weights: Vec<u32> = Vec::new();
        weights.push(DEFAULT_WEIGHT);
        match &self.random {
            Some(entries) => {
                for i in 0..entries.len()
                    invariant
                        entries@ == self@.random,
                        weights@ == seq![DEFAULT_WEIGHT] + entries@.take(i as int).map_values(
                            |e: (u32, ZoneTile)| e.0,
                        ),
                {
                    weights.push(entries[i].0);
                    assert(entries@.take(i + 1) == entries@.take(i as int).push(
                        entries@[i as int],
                    ));
                    assert(weights@ =~= seq![DEFAULT_WEIGHT] + entries@.take(i + 1).map_values(
                        |e: (u32, ZoneTile)| e.0,
                    ));
                }
                assert(entries@.take(entries@.len() as int) == entries@);
            },
            None => {
                assert(weights@ =~= self@.weights());
            },
        }
        weights
    }

    /// Whether the weights of the table can be summed: whether their total
    /// fits in `u32`.
    pub fn is_well_formed(&self) -> (fits: bool)
        ensures
            fits == self.well_formed(),
    {
        let weights = self.table_of_weights();
        let mut total: u32 = 0;
        for i in 0..weights.len()
            invariant
                weights@ == self@.weights(),
                total == total_weight(weights@.take(i as int)),
        {
            assert(weights@.take(i + 1).drop_last() == weights@.take(i as int));
            if weights[i] > u32::MAX - total {
                proof {
                    total_weight_grows(weights@, i + 1);
                }
                return false;
            }
            total = total + weights[i];
        }
        assert(weights@.take(weights@.len() as int) == weights@);
        true
    }

    /// Paints the next position, `(row_i, col_i)`, of a zone in progress.
    fn paint_cell(
        &self,
        chars: &mut Vec<Vec<char>>,
        table: &WeightTable,
        rng: &mut StdRng,
        width: u32,
        height: u32,
        zone_row_i: u32,
        zone_col_i: u32,
        row_i: u32,
        col_i: u32,
    )
        requires
            old(chars)@.len() > 0,
            row_i < height,
            col_i < width,
            table_weights(*table) == self@.weights(),
        ensures
            ({
                let cell = self@.cell_outcome(
                    self.world,
                    width as int,
                    height as int,
                    zone_row_i as int,
                    zone_col_i as int,
                    rows_of(old(chars)@),
                    rng_state(*old(rng)),
                    row_i as int,
                    col_i as int,
                );
                &&& rows_of(final(chars)@) == painted_onto(rows_of(old(chars)@), cell.0)
                &&& rng_state(*final(rng)) == cell.1
                &&& final(chars)@.len() == old(chars)@.len()
            }),
    {
        if is_out_zone(width, height, row_i, col_i) {
            paint(chars, BLANK);
            return ;
        }
        let border = is_in_border(width, height, row_i, col_i, BORDER_SPACING);
        match self.overflow_for(border, zone_row_i, zone_col_i) {
            Some(tile) => {
                paint(chars, get_char_for_tile(&tile));
            },
            None => {
                let painted = match &self.random_near {
                    Some(rules) => fill_with_random_nears(rules, chars, rng),
                    None => false,
                };
                if !painted {
                    let index = draw_weighted(table, rng);
                    let tile = self.tile_choice(index);
                    paint(chars, get_char_for_tile(&tile));
                }
            },
        }
    }

    /// The rows of the `width` by `height` zone at `(zone_row_i, zone_col_i)`
    /// of the world, painted from the generator that `seed` gives. The same
    /// seed gives the same rows.
    pub fn generate_rows(
        &self,
        width: u32,
        height: u32,
        zone_row_i: u32,
        zone_col_i: u32,
        seed: u64,
    ) -> (chars: Vec<Vec<char>>)
        requires
            self.well_formed(),
        ensures
            rows_of(chars@) == self@.zone_rows(
                self.world,
                width as int,
                height as int,
                zone_row_i as int,
                zone_col_i as int,
                seeded_state(seed),
            ),
    {
        let mut chars: Vec<Vec<char>> = Vec::new();
        let mut rng = seeded_rng(seed);
        let weights = self.table_of_weights();
        proof {
            total_weight_covers(weights@, 0);
        }
        let table = match weighted_table(&weights) {
            Ok(table) => table,
            Err(_) => vstd::pervasive::unreached(),
        };
        let ghost start = seeded_state(seed);

        for row_i in 0..height
            invariant
                table_weights(table) == self@.weights(),
                (rows_of(chars@), rng_state(rng)) == self@.fill_rows(
                    self.world,
                    width as int,
                    height as int,
                    zone_row_i as int,
                    zone_col_i as int,
                    start,
                    row_i as nat,
                ),
        {
            let ghost above = rows_of(chars@);
            let ghost state = rng_state(rng);
            chars.push(Vec::new());
            assert(rows_of(chars@) =~= above.push(Seq::empty()));
            for col_i in 0..width
                invariant
                    row_i < height,
                    table_weights(table) == self@.weights(),
                    chars@.len() > 0,
                    rows_of(chars@).drop_last() == above,
                    (rows_of(chars@).last(), rng_state(rng)) == self@.fill_row(
                        self.world,
                        width as int,
                        height as int,
                        zone_row_i as int,
                        zone_col_i as int,
                        above,
                        state,
                        row_i as int,
                        col_i as nat,
                    ),
            {
                assert(rows_of(chars@) =~= above.push(rows_of(chars@).last()));
                self.paint_cell(
                    &mut chars,
                    &table,
                    &mut rng,
                    width,
                    height,
                    zone_row_i,
                    zone_col_i,
                    row_i,
                    col_i,
                );
            }
            assert(rows_of(chars@) =~= above.push(rows_of(chars@).last()));
        }
        chars
    }

    /// The text of the `width` by `height` zone at `(zone_row_i, zone_col_i)`
    /// of the world, painted from the generator that `seed` gives: the
    /// header, then the rows joined by line feeds. The same seed gives the
    /// same text.
    pub fn generate(&self, width: u32, height: u32, zone_row_i: u32, zone_col_i: u32, seed: u64)
        -> (text: String)
        requires
            self.well_formed(),
        ensures
            text@ == zone_text(
                self@.zone_rows(
                    self.world,
                    width as int,
                    height as int,
                    zone_row_i as int,
                    zone_col_i as int,
                    seeded_state(seed),
                ),
            ),
    {
        let chars = self.generate_rows(width, height, zone_row_i, zone_col_i, seed);
        let body = join_rows(&chars);
        let mut text = String::from_str("::GEO\n");
        let body_text = string_of(&body);
        text.append(body_text.as_str());
        text
    }
}

/// Where the first `n` weights do not fit in `u32`, neither do all.
pub proof fn total_weight_grows(weights: Seq<u32>, n: int)
    requires
        0 <= n <= weights.len(),
    ensures
        total_weight(weights.take(n)) <= total_weight(weights),
    decreases weights.len() - n,
{
    if n < weights.len() {
        total_weight_grows(weights, n + 1);
        assert(weights.take(n + 1).drop_last() == weights.take(n));
    } else {
        assert(weights.take(n) == weights);
    }
}

} // verus!
