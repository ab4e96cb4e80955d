//! Generation of the zones of a world.

use crate::map::world::World;
use crate::text::{decimal, push_decimal, push_text, string_of};
use crate::RollingError;
use crate::tile::world::types::WorldTile;
use crate::tile::zone::types::ZoneTile;
use policy::{policies_are_well_formed, policy_of};
use random::seeded_state;
use vstd::prelude::*;
use zone::{zone_text, DefaultGenerator, Overflow, RandomNear};

pub mod laws;
pub mod policy;
pub mod progress;
pub mod random;
pub mod schedule;
pub mod shape;
pub mod zone;

verus! {

/// The name of the file that holds the zone of the cell `(row, col)`.
pub open spec fn zone_file(row: nat, col: nat) -> Seq<char> {
    decimal(row) + "-"@ + decimal(col) + ".txt"@
}

/// The message of the error for a zone that could not be generated.
pub open spec fn zone_error_message(row: nat, col: nat, cause: Seq<char>) -> Seq<char> {
    "Error during generation of "@ + zone_file(row, col) + ": "@ + cause
}

/// The name of the file that holds the zone of the cell `(row_i, col_i)`:
/// the two numbers in decimal, a hyphen between them, and `.txt`.
pub fn zone_file_name(row_i: usize, col_i: usize) -> (name: String)
    ensures
        name@ == zone_file(row_i as nat, col_i as nat),
{
    let mut name: Vec<char> = Vec::new();
    push_decimal(row_i, &mut name);
    push_text("-", &mut name);
    push_decimal(col_i, &mut name);
    push_text(".txt", &mut name);
    string_of(&name)
}

/// The error for the zone of the cell `(row_i, col_i)` that could not be
/// generated because of `cause`.
pub fn zone_error(row_i: usize, col_i: usize, cause: &str) -> (error: RollingError)
    ensures
        error.message@ == zone_error_message(row_i as nat, col_i as nat, cause@),
{
    let mut message: Vec<char> = Vec::new();
    push_text("Error during generation of ", &mut message);
    push_decimal(row_i, &mut message);
    push_text("-", &mut message);
    push_decimal(col_i, &mut message);
    push_text(".txt", &mut message);
    push_text(": ", &mut message);
    push_text(cause, &mut message);
    assert(message@ =~= zone_error_message(row_i as nat, col_i as nat, cause@));
    RollingError::new(string_of(&message))
}

/// A zone, ready to be written: the name of its file, and its text.
#[derive(Debug, PartialEq, Eq)]
pub struct ZoneFile {
    pub name: String,
    pub content: String,
}

/// The seed of the zone of the cell `(row, col)` in a run of seed `seed`:
/// each cell has a seed of its own.
pub open spec fn cell_seed(seed: u64, row: u32, col: u32) -> u64 {
    seed ^ (((row as u64) << 32) | (col as u64))
}

/// The name and the text of the zone of the cell `(row, col)`, of biome
/// `biome`, in a run of seed `seed`.
pub open spec fn zone_of_cell(
    world: &World,
    biome: WorldTile,
    width: int,
    height: int,
    row: u32,
    col: u32,
    seed: u64,
) -> (Seq<char>, Seq<char>) {
    (
        zone_file(row as nat, col as nat),
        zone_text(
            policy_of(biome).zone_rows(
                world,
                width,
                height,
                row as int,
                col as int,
                seeded_state(cell_seed(seed, row, col)),
            ),
        ),
    )
}

/// The zones of the first `n` cells of the row `row` of the world.
pub open spec fn zones_of_row(
    world: &World,
    width: int,
    height: int,
    seed: u64,
    row: int,
    n: nat,
) -> Seq<(Seq<char>, Seq<char>)>
    decreases n,
{
    if n == 0 {
        Seq::empty()
    } else {
        zones_of_row(world, width, height, seed, row, (n - 1) as nat).push(
            zone_of_cell(
                world,
                world.rows@[row]@[n - 1],
                width,
                height,
                row as u32,
                (n - 1) as u32,
                seed,
            ),
        )
    }
}

/// The zones of the first `n` rows of the world, row by row.
pub open spec fn zones_of_rows(world: &World, width: int, height: int, seed: u64, n: nat) -> Seq<
    (Seq<char>, Seq<char>),
>
    decreases n,
{
    if n == 0 {
        Seq::empty()
    } else {
        zones_of_rows(world, width, height, seed, (n - 1) as nat) + zones_of_row(
            world,
            width,
            height,
            seed,
            n - 1,
            world.rows@[n - 1]@.len(),
        )
    }
}

/// The name and the text of each of `files`.
pub open spec fn files_view(files: Seq<ZoneFile>) -> Seq<(Seq<char>, Seq<char>)> {
    files.map_values(|file: ZoneFile| (file.name@, file.content@))
}

/// The seed of the zone of the cell `(row_i, col_i)` in a run of seed
/// `seed`.
pub fn zone_seed(seed: u64, row_i: u32, col_i: u32) -> (own: u64)
    ensures
        own == cell_seed(seed, row_i, col_i),
{
    seed ^ (((row_i as u64) << 32) | (col_i as u64))
}

/// In one run, no two cells have the same seed.
pub proof fn cells_have_seeds_of_their_own(
    seed: u64,
    row: u32,
    col: u32,
    other_row: u32,
    other_col: u32,
)
    requires
        cell_seed(seed, row, col) == cell_seed(seed, other_row, other_col),
    ensures
        row == other_row,
        col == other_col,
{
    assert(seed ^ (((row as u64) << 32) | (col as u64)) == seed ^ (((other_row as u64) << 32) | (
    other_col as u64)) ==> row == other_row && col == other_col) by (bit_vector);
}

/// The generator of the zones of a world.
pub struct Generator<'a> {
    pub world: &'a World<'a>,
}

/// The rule by which a painted `tile` propagates with a probability of
/// `probability` percent.
fn spread(tile: ZoneTile, probability: u32) -> (rule: RandomNear)
    ensures
        rule == policy::spreads(tile, probability),
{
    RandomNear { near: tile, tile, probability }
}

impl<'a> Generator<'a> {
    /// The generator of the zones of `world`.
    pub fn new(world: &'a World<'a>) -> (generator: Generator<'a>)
        ensures
            generator.world == world,
    {
        Generator { world }
    }

    /// The policy of the biome `world_tile`: every biome has one.
    pub fn get_zone_generator(&self, world_tile: &WorldTile) -> (generator: DefaultGenerator<'a>)
        ensures
            generator@ == policy_of(*world_tile),
            generator.world == self.world,
            generator.well_formed(),
    {
        let generator = match world_tile {
            WorldTile::Beach => DefaultGenerator {
                world: self.world,
                default_tile: ZoneTile::Sand,
                random: Some(vec![(500, ZoneTile::DryBush), (100, ZoneTile::Rock)]),
                random_near: None,
                allow_overflow: Some(
                    vec![
                        Overflow {
                            world_tile: WorldTile::Sea,
                            default_tile: ZoneTile::SaltedWater,
                            depth: 3,
                        },
                    ],
                ),
            },
            WorldTile::Sea => DefaultGenerator {
                world: self.world,
                default_tile: ZoneTile::SaltedWater,
                random: None,
                random_near: None,
                allow_overflow: None,
            },
            WorldTile::Mountain => DefaultGenerator {
                world: self.world,
                default_tile: ZoneTile::RockyGround,
                random: Some(
                    vec![
                        (300, ZoneTile::Rock),
                        (3, ZoneTile::FreshWater),
                        (1, ZoneTile::CopperDeposit),
                        (1, ZoneTile::TinDeposit),
                        (1, ZoneTile::IronDeposit),
                    ],
                ),
                random_near: Some(
                    vec![
                        spread(ZoneTile::Rock, 40),
                        spread(ZoneTile::CopperDeposit, 10),
                        spread(ZoneTile::TinDeposit, 10),
                        spread(ZoneTile::IronDeposit, 10),
                    ],
                ),
                allow_overflow: None,
            },
            WorldTile::Plain => DefaultGenerator {
                world: self.world,
                default_tile: ZoneTile::ShortGrass,
                random: Some(
                    vec![
                        (100, ZoneTile::Rock),
                        (7000, ZoneTile::HightGrass),
                        (200, ZoneTile::DeadTree),
                        (10, ZoneTile::FreshWater),
                        (10, ZoneTile::ClayDeposit),
                    ],
                ),
                random_near: Some(
                    vec![
                        spread(ZoneTile::FreshWater, 25),
                        spread(ZoneTile::HightGrass, 35),
                        spread(ZoneTile::ClayDeposit, 50),
                    ],
                ),
                allow_overflow: None,
            },
            WorldTile::Jungle => DefaultGenerator {
                world: self.world,
                default_tile: ZoneTile::Dirt,
                random: Some(
                    vec![
                        (9000, ZoneTile::TropicalTree),
                        (2000, ZoneTile::LeafTree),
                        (1000, ZoneTile::HightGrass),
                        (500, ZoneTile::FreshWater),
                        (500, ZoneTile::ClayDeposit),
                    ],
                ),
                random_near: Some(
                    vec![
                        spread(ZoneTile::FreshWater, 10),
                        spread(ZoneTile::TropicalTree, 10),
                        spread(ZoneTile::LeafTree, 5),
                        spread(ZoneTile::ClayDeposit, 5),
                    ],
                ),
                allow_overflow: None,
            },
            WorldTile::Hill => DefaultGenerator {
                world: self.world,
                default_tile: ZoneTile::ShortGrass,
                random: Some(
                    vec![
                        (6000, ZoneTile::HightGrass),
                        (700, ZoneTile::LeafTree),
                        (1, ZoneTile::FreshWater),
                        (1, ZoneTile::CopperDeposit),
                        (1, ZoneTile::TinDeposit),
                        (1, ZoneTile::IronDeposit),
                        (20, ZoneTile::ClayDeposit),
                    ],
                ),
                random_near: Some(
                    vec![
                        spread(ZoneTile::LeafTree, 35),
                        spread(ZoneTile::FreshWater, 35),
                        spread(ZoneTile::CopperDeposit, 10),
                        spread(ZoneTile::TinDeposit, 10),
                        spread(ZoneTile::IronDeposit, 10),
                        spread(ZoneTile::ClayDeposit, 30),
                    ],
                ),
                allow_overflow: None,
            },
        };
        proof {
            assert(generator@.random =~= policy::random_of(*world_tile));
            assert(generator@.near =~= policy::near_of(*world_tile));
            assert(generator@.overflow =~= policy::overflow_of(*world_tile));
            policies_are_well_formed(*world_tile);
        }
        generator
    }

    /// The zones of all cells of the world, `width` by `height` each, row by
    /// row, in a run of seed `seed`: each zone with the name of its file and
    /// with the text that `generate_zone` gives for the cell's own seed. So
    /// whoever generates the zones one by one, in whatever order and however
    /// many at a time, gets the same texts.
    pub fn generate(&self, width: u32, height: u32, seed: u64) -> (files: Vec<ZoneFile>)
        requires
            self.world.rows@.len() <= u32::MAX,
            forall|r: int|
                0 <= r < self.world.rows@.len() ==> (#[trigger] self.world.rows@[r])@.len()
                    <= u32::MAX,
        ensures
            files_view(files@) == zones_of_rows(
                self.world,
                width as int,
                height as int,
                seed,
                self.world.rows@.len(),
            ),
    {
        let mut files: Vec<ZoneFile> = Vec::new();
        assert(files_view(files@) =~= Seq::empty());
        for row_i in 0..self.world.rows.len()
            invariant
                self.world.rows@.len() <= u32::MAX,
                forall|r: int|
                    0 <= r < self.world.rows@.len() ==> (#[trigger] self.world.rows@[r])@.len()
                        <= u32::MAX,
                files_view(files@) == zones_of_rows(
                    self.world,
                    width as int,
                    height as int,
                    seed,
                    row_i as nat,
                ),
        {
            let ghost before = files_view(files@);
            let row = &self.world.rows[row_i];
            assert(before + Seq::<(Seq<char>, Seq<char>)>::empty() =~= before);
            for col_i in 0..row.len()
                invariant
                    row_i < self.world.rows@.len() <= u32::MAX,
                    row@ == self.world.rows@[row_i as int]@,
                    row@.len() <= u32::MAX,
                    files_view(files@) == before + zones_of_row(
                        self.world,
                        width as int,
                        height as int,
                        seed,
                        row_i as int,
                        col_i as nat,
                    ),
            {
                let ghost done = files_view(files@);
                let own = zone_seed(seed, row_i as u32, col_i as u32);
                let zone_generator = self.get_zone_generator(&row[col_i]);
                let content = zone_generator.generate(
                    width,
                    height,
                    row_i as u32,
                    col_i as u32,
                    own,
                );
                let file = ZoneFile { name: zone_file_name(row_i, col_i), content };
                files.push(file);
                assert(files_view(files@) =~= done.push((file.name@, file.content@)));
                assert(files_view(files@) =~= before + zones_of_row(
                    self.world,
                    width as int,
                    height as int,
                    seed,
                    row_i as int,
                    (col_i + 1) as nat,
                ));
            }
        }
        files
    }

    /// The text of the `width` by `height` zone of the cell `(row_i, col_i)`
    /// of the world, filled by the policy of the cell's biome from the
    /// generator that `seed` gives; `None` where the world has no such cell.
    /// The text depends on nothing else: not on when, nor in what order, the
    /// zones of the world are generated.
    pub fn generate_zone(
        &self,
        width: u32,
        height: u32,
        row_i: u32,
        col_i: u32,
        seed: u64,
    ) -> (text: Option<String>)
        ensures
            match self.world.biome_at(row_i as int, col_i as int) {
                None => text is None,
                Some(biome) => text matches Some(t) && t@ == zone_text(
                    policy_of(biome).zone_rows(
                        self.world,
                        width as int,
                        height as int,
                        row_i as int,
                        col_i as int,
                        seeded_state(seed),
                    ),
                ),
            },
    {
        match zone::get_world_tile(self.world, row_i, col_i) {
            None => None,
            Some(world_tile) => {
                let zone_generator = self.get_zone_generator(&world_tile);
                Some(zone_generator.generate(width, height, row_i, col_i, seed))
            },
        }
    }
}

} // verus!
