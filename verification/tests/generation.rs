use rolling::map::generator::zone::{Overflow, RandomNear};
use rolling::map::generator::{zone_error, zone_file_name, zone_seed, Generator, ZoneFile};
use rolling::tile::world::types::WorldTile;
use rolling::tile::zone::types::ZoneTile;
use rolling::map::world::World;
use rolling::tile::world::legend::WorldMapLegend;

fn sea_source() -> String {
    String::from("::LEGEND\n~ SEA*\n::GEO\n~~\n~~")
}

#[test]
fn all_sea_world_is_generated_as_four_files() {
    let source = sea_source();
    let legend = WorldMapLegend::new(&source).unwrap();
    let world = World::new(&source, &legend).unwrap();
    let generator = Generator::new(&world);
    for seed in [0u64, 1, 987654321] {
        let files = generator.generate(4, 4, seed);
        let water = String::from("::GEO\n ~~ \n~~~~\n~~~~\n ~~ ");
        let expected: Vec<ZoneFile> = ["0-0.txt", "0-1.txt", "1-0.txt", "1-1.txt"]
            .iter()
            .map(|name| ZoneFile { name: String::from(*name), content: water.clone() })
            .collect();
        assert_eq!(expected, files);
    }
}

#[test]
fn run_gives_each_zone_its_own_seed() {
    let source = String::from("::LEGEND\n^ MOUNTAIN\np PLAIN\nj JUNGLE\n::GEO\n^pj\nj\n\npp");
    let legend = WorldMapLegend::new(&source).unwrap();
    let world = World::new(&source, &legend).unwrap();
    let generator = Generator::new(&world);
    let files = generator.generate(11, 9, 42);
    let cells = [(0u32, 0u32), (0, 1), (0, 2), (1, 0), (3, 0), (3, 1)];
    assert_eq!(cells.len(), files.len());
    for (file, (row, col)) in files.iter().zip(cells.iter()) {
        assert_eq!(zone_file_name(*row as usize, *col as usize), file.name);
        let alone = generator.generate_zone(11, 9, *row, *col, zone_seed(42, *row, *col));
        assert_eq!(Some(file.content.clone()), alone);
    }
    assert_eq!(files, generator.generate(11, 9, 42));
    assert_ne!(files, generator.generate(11, 9, 43));
    assert_ne!(files[1].content, files[5].content);
}

#[test]
fn seeds_of_cells() {
    assert_eq!(5, zone_seed(5, 0, 0));
    assert_eq!(4, zone_seed(5, 0, 1));
    assert_eq!(5 + (1u64 << 32), zone_seed(5, 1, 0));
    assert_eq!(u64::MAX, zone_seed(0, u32::MAX, u32::MAX));
    assert_eq!(0, zone_seed(u64::MAX, u32::MAX, u32::MAX));
}

#[test]
fn all_sea_world_gives_four_water_zones() {
    let source = sea_source();
    let legend = WorldMapLegend::new(&source).unwrap();
    let world = World::new(&source, &legend).unwrap();
    let generator = Generator::new(&world);
    let mut artifacts = 0;
    for row in 0..2u32 {
        for col in 0..2u32 {
            let text = generator.generate_zone(4, 4, row, col, 7 + (row * 2 + col) as u64);
            assert_eq!(Some(String::from("::GEO\n ~~ \n~~~~\n~~~~\n ~~ ")), text);
            artifacts += 1;
        }
    }
    assert_eq!(4, artifacts);
    assert_eq!(None, generator.generate_zone(4, 4, 2, 0, 1));
    assert_eq!(None, generator.generate_zone(4, 4, 0, 2, 1));
}

#[test]
fn same_seed_gives_same_zone() {
    let source = String::from("::LEGEND\nm MOUNTAIN\np PLAIN\n::GEO\nmp\npm");
    let legend = WorldMapLegend::new(&source).unwrap();
    let world = World::new(&source, &legend).unwrap();
    let generator = Generator::new(&world);
    let first = generator.generate_zone(31, 31, 0, 1, 12345).unwrap();
    let second = generator.generate_zone(31, 31, 0, 1, 12345).unwrap();
    assert_eq!(first, second);
    let other = generator.generate_zone(31, 31, 0, 1, 54321).unwrap();
    assert_ne!(first, other);
    println!("{}", first);
}

#[test]
fn every_biome_has_its_policy() {
    let source = sea_source();
    let legend = WorldMapLegend::new(&source).unwrap();
    let world = World::new(&source, &legend).unwrap();
    let generator = Generator::new(&world);
    let spread = |tile: ZoneTile, probability: u32| RandomNear { near: tile, tile, probability };

    let beach = generator.get_zone_generator(&WorldTile::Beach);
    assert_eq!(ZoneTile::Sand, beach.default_tile);
    assert_eq!(Some(vec![(500, ZoneTile::DryBush), (100, ZoneTile::Rock)]), beach.random);
    assert_eq!(None, beach.random_near);
    assert_eq!(
        Some(vec![Overflow {
            world_tile: WorldTile::Sea,
            default_tile: ZoneTile::SaltedWater,
            depth: 3
        }]),
        beach.allow_overflow
    );

    let sea = generator.get_zone_generator(&WorldTile::Sea);
    assert_eq!(ZoneTile::SaltedWater, sea.default_tile);
    assert_eq!(None, sea.random);
    assert_eq!(None, sea.random_near);
    assert_eq!(None, sea.allow_overflow);

    let mountain = generator.get_zone_generator(&WorldTile::Mountain);
    assert_eq!(ZoneTile::RockyGround, mountain.default_tile);
    assert_eq!(
        Some(vec![
            (300, ZoneTile::Rock),
            (3, ZoneTile::FreshWater),
            (1, ZoneTile::CopperDeposit),
            (1, ZoneTile::TinDeposit),
            (1, ZoneTile::IronDeposit),
        ]),
        mountain.random
    );
    assert_eq!(
        Some(vec![
            spread(ZoneTile::Rock, 40),
            spread(ZoneTile::CopperDeposit, 10),
            spread(ZoneTile::TinDeposit, 10),
            spread(ZoneTile::IronDeposit, 10),
        ]),
        mountain.random_near
    );
    assert_eq!(None, mountain.allow_overflow);

    let plain = generator.get_zone_generator(&WorldTile::Plain);
    assert_eq!(ZoneTile::ShortGrass, plain.default_tile);
    assert_eq!(
        Some(vec![
            (100, ZoneTile::Rock),
            (7000, ZoneTile::HightGrass),
            (200, ZoneTile::DeadTree),
            (10, ZoneTile::FreshWater),
            (10, ZoneTile::ClayDeposit),
        ]),
        plain.random
    );
    assert_eq!(
        Some(vec![
            spread(ZoneTile::FreshWater, 25),
            spread(ZoneTile::HightGrass, 35),
            spread(ZoneTile::ClayDeposit, 50),
        ]),
        plain.random_near
    );

    let jungle = generator.get_zone_generator(&WorldTile::Jungle);
    assert_eq!(ZoneTile::Dirt, jungle.default_tile);
    assert_eq!(
        Some(vec![
            (9000, ZoneTile::TropicalTree),
            (2000, ZoneTile::LeafTree),
            (1000, ZoneTile::HightGrass),
            (500, ZoneTile::FreshWater),
            (500, ZoneTile::ClayDeposit),
        ]),
        jungle.random
    );
    assert_eq!(
        Some(vec![
            spread(ZoneTile::FreshWater, 10),
            spread(ZoneTile::TropicalTree, 10),
            spread(ZoneTile::LeafTree, 5),
            spread(ZoneTile::ClayDeposit, 5),
        ]),
        jungle.random_near
    );

    let hill = generator.get_zone_generator(&WorldTile::Hill);
    assert_eq!(ZoneTile::ShortGrass, hill.default_tile);
    assert_eq!(
        Some(vec![
            (6000, ZoneTile::HightGrass),
            (700, ZoneTile::LeafTree),
            (1, ZoneTile::FreshWater),
            (1, ZoneTile::CopperDeposit),
            (1, ZoneTile::TinDeposit),
            (1, ZoneTile::IronDeposit),
            (20, ZoneTile::ClayDeposit),
        ]),
        hill.random
    );
    assert_eq!(
        Some(vec![
            spread(ZoneTile::LeafTree, 35),
            spread(ZoneTile::FreshWater, 35),
            spread(ZoneTile::CopperDeposit, 10),
            spread(ZoneTile::TinDeposit, 10),
            spread(ZoneTile::IronDeposit, 10),
            spread(ZoneTile::ClayDeposit, 30),
        ]),
        hill.random_near
    );
    for biome in [
        WorldTile::Beach,
        WorldTile::Sea,
        WorldTile::Mountain,
        WorldTile::Plain,
        WorldTile::Jungle,
        WorldTile::Hill,
    ] {
        assert!(generator.get_zone_generator(&biome).is_well_formed());
    }
}

#[test]
fn zone_is_filled_by_the_policy_of_its_biome() {
    let source = String::from("::LEGEND\n~ SEA\nb BEACH\n::GEO\n~b~");
    let legend = WorldMapLegend::new(&source).unwrap();
    let world = World::new(&source, &legend).unwrap();
    let generator = Generator::new(&world);
    let beach = generator.get_zone_generator(&WorldTile::Beach);
    for seed in [0u64, 1, 2, 77] {
        let text = generator.generate_zone(9, 9, 0, 1, seed).unwrap();
        assert_eq!(beach.generate(9, 9, 0, 1, seed), text);
        let rows: Vec<Vec<char>> = text.split('\n').skip(1).map(|l| l.chars().collect()).collect();
        // The sea lies on both sides: it overflows into the left and right bands.
        for row in 2..7 {
            assert_eq!(vec!['~', '~'], rows[row][0..2].to_vec());
            assert_eq!(vec!['~', '~'], rows[row][7..9].to_vec());
            assert!(rows[row][2..7].iter().all(|c| *c != '~' && *c != ' '));
        }
    }
}

#[test]
fn zone_files_are_named_by_row_and_column() {
    assert_eq!("0-0.txt", zone_file_name(0, 0));
    assert_eq!("3-12.txt", zone_file_name(3, 12));
    assert_eq!("100-9.txt", zone_file_name(100, 9));
    assert_eq!("4294967295-10.txt", zone_file_name(4294967295, 10));
    assert_eq!(
        "Error during generation of 2-30.txt: disk full",
        zone_error(2, 30, "disk full").message
    );
}
