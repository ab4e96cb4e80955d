use rolling::tile::world::types::{get_type, WorldTile};
use rolling::tile::zone::types::{get_char_for_tile, ZoneTile};

#[test]
fn get_type_ok_sea() {
    let result = get_type("SEA");
    assert_eq!(WorldTile::Sea, result.unwrap())
}

#[test]
#[should_panic]
fn get_type_err_unknown() {
    get_type("UNKNOWN").unwrap();
}

#[test]
fn every_biome_has_its_identifier() {
    assert_eq!(WorldTile::Sea, get_type("SEA").unwrap());
    assert_eq!(WorldTile::Mountain, get_type("MOUNTAIN").unwrap());
    assert_eq!(WorldTile::Beach, get_type("BEACH").unwrap());
    assert_eq!(WorldTile::Plain, get_type("PLAIN").unwrap());
    assert_eq!(WorldTile::Jungle, get_type("JUNGLE").unwrap());
    assert_eq!(WorldTile::Hill, get_type("HILL").unwrap());
}

#[test]
fn unknown_identifier_is_quoted_in_the_error() {
    assert_eq!(
        "No world tile found for id \"UNKNOWN\"",
        get_type("UNKNOWN").unwrap_err().message
    );
    assert_eq!("No world tile found for id \"sea\"", get_type("sea").unwrap_err().message);
    assert_eq!("No world tile found for id \"\"", get_type("").unwrap_err().message);
}

#[test]
fn every_zone_tile_has_its_character() {
    let tiles = [
        (ZoneTile::SaltedWater, '~'),
        (ZoneTile::Sand, '⡩'),
        (ZoneTile::Rock, '#'),
        (ZoneTile::DryBush, 'ʛ'),
        (ZoneTile::RockyGround, '፨'),
        (ZoneTile::ShortGrass, '܄'),
        (ZoneTile::HightGrass, '؛'),
        (ZoneTile::Dirt, '⁖'),
        (ZoneTile::LeafTree, '߉'),
        (ZoneTile::TropicalTree, 'ፆ'),
        (ZoneTile::DeadTree, 'آ'),
        (ZoneTile::FreshWater, 'ގ'),
        (ZoneTile::CopperDeposit, 'c'),
        (ZoneTile::TinDeposit, 't'),
        (ZoneTile::IronDeposit, 'i'),
        (ZoneTile::ClayDeposit, 'y'),
    ];
    for (i, (tile, c)) in tiles.iter().enumerate() {
        assert_eq!(*c, get_char_for_tile(tile));
        assert_ne!(' ', *c);
        for (other, d) in tiles.iter().skip(i + 1) {
            assert_ne!(tile, other);
            assert_ne!(c, d);
        }
    }
}
