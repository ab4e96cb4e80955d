//! The terrain tiles a zone is made of, and the character that displays each.

use vstd::prelude::*;

verus! {

/// A fine-grained terrain tile.
#[derive(Clone, Copy, Debug, PartialEq, Eq, Structural)]
pub enum ZoneTile {
    SaltedWater,
    Sand,
    Rock,
    RockyGround,
    DryBush,
    ShortGrass,
    HightGrass,
    Dirt,
    LeafTree,
    TropicalTree,
    DeadTree,
    FreshWater,
    CopperDeposit,
    TinDeposit,
    IronDeposit,
    ClayDeposit,
}

/// The character that displays `tile`.
pub open spec fn tile_char(tile: ZoneTile) -> char {
    match tile {
        ZoneTile::SaltedWater => '~',
        ZoneTile::Sand => '⡩',
        ZoneTile::Rock => '#',
        ZoneTile::DryBush => 'ʛ',
        ZoneTile::RockyGround => '፨',
        ZoneTile::ShortGrass => '܄',
        ZoneTile::HightGrass => '؛',
        ZoneTile::Dirt => '⁖',
        ZoneTile::LeafTree => '߉',
        ZoneTile::TropicalTree => 'ፆ',
        ZoneTile::DeadTree => 'آ',
        ZoneTile::FreshWater => 'ގ',
        ZoneTile::CopperDeposit => 'c',
        ZoneTile::TinDeposit => 't',
        ZoneTile::IronDeposit => 'i',
        ZoneTile::ClayDeposit => 'y',
    }
}

/// The display character of a tile: a total function of the tile.
pub fn get_char_for_tile(tile: &ZoneTile) -> (c: char)
    ensures
        c == tile_char(*tile),
{
    match tile {
        ZoneTile::SaltedWater => '~',
        ZoneTile::Sand => '⡩',
        ZoneTile::Rock => '#',
        ZoneTile::DryBush => 'ʛ',
        ZoneTile::RockyGround => '፨',
        ZoneTile::ShortGrass => '܄',
        ZoneTile::HightGrass => '؛',
        ZoneTile::Dirt => '⁖',
        ZoneTile::LeafTree => '߉',
        ZoneTile::TropicalTree => 'ፆ',
        ZoneTile::DeadTree => 'آ',
        ZoneTile::FreshWater => 'ގ',
        ZoneTile::CopperDeposit => 'c',
        ZoneTile::TinDeposit => 't',
        ZoneTile::IronDeposit => 'i',
        ZoneTile::ClayDeposit => 'y',
    }
}

/// No two tiles share a display character, and none is displayed as a blank:
/// a painted character names its tile, and a blank cell is never a tile.
pub proof fn tile_char_is_injective(a: ZoneTile, b: ZoneTile)
    ensures
        tile_char(a) == tile_char(b) ==> a == b,
        tile_char(a) != ' ',
{
}

} // verus!
