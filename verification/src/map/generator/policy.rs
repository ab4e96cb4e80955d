//! The policy of each biome: what its zones are filled with.
//!
//! Weights are in hundredths: the default tile of every policy weighs 10000,
//! a tile that the table lists with 500 is drawn once for twenty draws of the
//! default tile.

use super::random::total_weight;
use super::zone::{Overflow, Policy, RandomNear, DEFAULT_WEIGHT};
use crate::tile::world::types::WorldTile;
use crate::tile::zone::types::ZoneTile;
use vstd::prelude::*;

verus! {

/// The default tile of the zones of a biome.
pub open spec fn default_tile_of(biome: WorldTile) -> ZoneTile {
    match biome {
        WorldTile::Beach => ZoneTile::Sand,
        WorldTile::Sea => ZoneTile::SaltedWater,
        WorldTile::Mountain => ZoneTile::RockyGround,
        WorldTile::Plain => ZoneTile::ShortGrass,
        WorldTile::Jungle => ZoneTile::Dirt,
        WorldTile::Hill => ZoneTile::ShortGrass,
    }
}

/// The weighted table of a biome besides its default tile.
pub open spec fn random_of(biome: WorldTile) -> Seq<(u32, ZoneTile)> {
    match biome {
        WorldTile::Beach => seq![(500u32, ZoneTile::DryBush), (100u32, ZoneTile::Rock)],
        WorldTile::Sea => seq![],
        WorldTile::Mountain => seq![
            (300u32, ZoneTile::Rock),
            (3u32, ZoneTile::FreshWater),
            (1u32, ZoneTile::CopperDeposit),
            (1u32, ZoneTile::TinDeposit),
            (1u32, ZoneTile::IronDeposit),
        ],
        WorldTile::Plain => seq![
            (100u32, ZoneTile::Rock),
            (7000u32, ZoneTile::HightGrass),
            (200u32, ZoneTile::DeadTree),
            (10u32, ZoneTile::FreshWater),
            (10u32, ZoneTile::ClayDeposit),
        ],
        WorldTile::Jungle => seq![
            (9000u32, ZoneTile::TropicalTree),
            (2000u32, ZoneTile::LeafTree),
            (1000u32, ZoneTile::HightGrass),
            (500u32, ZoneTile::FreshWater),
            (500u32, ZoneTile::ClayDeposit),
        ],
        WorldTile::Hill => seq![
            (6000u32, ZoneTile::HightGrass),
            (700u32, ZoneTile::LeafTree),
            (1u32, ZoneTile::FreshWater),
            (1u32, ZoneTile::CopperDeposit),
            (1u32, ZoneTile::TinDeposit),
            (1u32, ZoneTile::IronDeposit),
            (20u32, ZoneTile::ClayDeposit),
        ],
    }
}

/// The rule by which a painted `tile` propagates with a probability of
/// `probability` percent.
pub open spec fn spreads(tile: ZoneTile, probability: u32) -> RandomNear {
    RandomNear { near: tile, tile, probability }
}

/// The propagation rules of a biome.
pub open spec fn near_of(biome: WorldTile) -> Seq<RandomNear> {
    match biome {
        WorldTile::Beach => seq![],
        WorldTile::Sea => seq![],
        WorldTile::Mountain => seq![
            spreads(ZoneTile::Rock, 40),
            spreads(ZoneTile::CopperDeposit, 10),
            spreads(ZoneTile::TinDeposit, 10),
            spreads(ZoneTile::IronDeposit, 10),
        ],
        WorldTile::Plain => seq![
            spreads(ZoneTile::FreshWater, 25),
            spreads(ZoneTile::HightGrass, 35),
            spreads(ZoneTile::ClayDeposit, 50),
        ],
        WorldTile::Jungle => seq![
            spreads(ZoneTile::FreshWater, 10),
            spreads(ZoneTile::TropicalTree, 10),
            spreads(ZoneTile::LeafTree, 5),
            spreads(ZoneTile::ClayDeposit, 5),
        ],
        WorldTile::Hill => seq![
            spreads(ZoneTile::LeafTree, 35),
            spreads(ZoneTile::FreshWater, 35),
            spreads(ZoneTile::CopperDeposit, 10),
            spreads(ZoneTile::TinDeposit, 10),
            spreads(ZoneTile::IronDeposit, 10),
            spreads(ZoneTile::ClayDeposit, 30),
        ],
    }
}

/// The overflow rules of a biome: the sea overflows into a beach, three
/// tiles deep.
pub open spec fn overflow_of(biome: WorldTile) -> Seq<Overflow> {
    match biome {
        WorldTile::Beach => seq![
            Overflow {
                world_tile: WorldTile::Sea,
                default_tile: ZoneTile::SaltedWater,
                depth: 3,
            },
        ],
        WorldTile::Sea => seq![],
        WorldTile::Mountain => seq![],
        WorldTile::Plain => seq![],
        WorldTile::Jungle => seq![],
        WorldTile::Hill => seq![],
    }
}

/// The policy of a biome. Every biome has one of its own: none falls back
/// on another's.
pub open spec fn policy_of(biome: WorldTile) -> Policy {
    Policy {
        default_tile: default_tile_of(biome),
        random: random_of(biome),
        near: near_of(biome),
        overflow: overflow_of(biome),
    }
}

/// The sum of weights that are each at most `bound` is at most as many times
/// `bound`.
pub proof fn total_weight_is_bounded(weights: Seq<u32>, bound: int)
    requires
        forall|i: int| 0 <= i < weights.len() ==> weights[i] <= bound,
    ensures
        total_weight(weights) <= weights.len() * bound,
    decreases weights.len(),
{
    if weights.len() > 0 {
        total_weight_is_bounded(weights.drop_last(), bound);
        assert((weights.len() - 1) * bound + bound == weights.len() * bound) by (nonlinear_arith);
    }
}

/// The policy of every biome has weights that can be summed.
pub proof fn policies_are_well_formed(biome: WorldTile)
    ensures
        policy_of(biome).well_formed(),
{
    let weights = policy_of(biome).weights();
    assert(weights.len() <= 8);
    assert forall|i: int| 0 <= i < weights.len() implies weights[i] <= DEFAULT_WEIGHT by {
        if i > 0 {
            assert(weights[i] == random_of(biome)[i - 1].0);
        }
    }
    total_weight_is_bounded(weights, DEFAULT_WEIGHT as int);
    assert(weights.len() * DEFAULT_WEIGHT <= 8 * DEFAULT_WEIGHT) by (nonlinear_arith)
        requires
            weights.len() <= 8,
    ;
}

/// The policy of the sea is plain: its zones hold salted water alone.
pub proof fn sea_policy_is_plain()
    ensures
        policy_of(WorldTile::Sea).is_plain(),
        policy_of(WorldTile::Sea).default_tile == ZoneTile::SaltedWater,
{
}

} // verus!
