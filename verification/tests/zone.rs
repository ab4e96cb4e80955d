use rolling::map::generator::shape::{is_in_border, is_out_zone, Border};
use rolling::map::generator::zone::{
    get_near_zone, get_world_tile, is_there_around, DefaultGenerator, Overflow, RandomNear,
};
use rolling::map::world::World;
use rolling::tile::world::legend::WorldMapLegend;
use rolling::tile::world::types::WorldTile;
use rolling::tile::zone::types::ZoneTile;

const SOURCE: &str = "::LEGEND\n~ SEA\n^ MOUNTAIN\nb BEACH\np PLAIN\nj JUNGLE\nh HILL\n::GEO\n~^b\npjh\nb~^";

fn rows_of(text: &str) -> Vec<Vec<char>> {
    let body = text.strip_prefix("::GEO\n").unwrap();
    body.split('\n').map(|line| line.chars().collect()).collect()
}

#[test]
fn neighbour_zone_of_each_band() {
    let source = String::from(SOURCE);
    let legend = WorldMapLegend::new(&source).unwrap();
    let world = World::new(&source, &legend).unwrap();

    assert_eq!(Some(WorldTile::Sea), get_near_zone(&world, Border::TopLeft(1), 1, 1));
    assert_eq!(Some(WorldTile::Mountain), get_near_zone(&world, Border::Top(1), 1, 1));
    assert_eq!(Some(WorldTile::Beach), get_near_zone(&world, Border::TopRight(1), 1, 1));
    assert_eq!(Some(WorldTile::Plain), get_near_zone(&world, Border::Left(2), 1, 1));
    assert_eq!(Some(WorldTile::Hill), get_near_zone(&world, Border::Right(2), 1, 1));
    assert_eq!(Some(WorldTile::Beach), get_near_zone(&world, Border::BottomLeft(1), 1, 1));
    assert_eq!(Some(WorldTile::Sea), get_near_zone(&world, Border::Bottom(1), 1, 1));
    assert_eq!(Some(WorldTile::Mountain), get_near_zone(&world, Border::BottomRight(1), 1, 1));
}

#[test]
fn bands_that_face_beyond_the_world_have_no_neighbour() {
    let source = String::from(SOURCE);
    let legend = WorldMapLegend::new(&source).unwrap();
    let world = World::new(&source, &legend).unwrap();

    assert_eq!(None, get_near_zone(&world, Border::TopLeft(1), 0, 0));
    assert_eq!(None, get_near_zone(&world, Border::Top(1), 0, 0));
    assert_eq!(None, get_near_zone(&world, Border::TopRight(1), 0, 0));
    assert_eq!(None, get_near_zone(&world, Border::Left(1), 0, 0));
    assert_eq!(None, get_near_zone(&world, Border::BottomLeft(1), 0, 0));
    assert_eq!(Some(WorldTile::Mountain), get_near_zone(&world, Border::Right(1), 0, 0));
    assert_eq!(Some(WorldTile::Plain), get_near_zone(&world, Border::Bottom(1), 0, 0));
    assert_eq!(Some(WorldTile::Jungle), get_near_zone(&world, Border::BottomRight(1), 0, 0));

    assert_eq!(None, get_near_zone(&world, Border::Right(1), 2, 2));
    assert_eq!(None, get_near_zone(&world, Border::Bottom(1), 2, 2));
    assert_eq!(None, get_near_zone(&world, Border::BottomRight(1), 2, 2));
    assert_eq!(None, get_near_zone(&world, Border::TopRight(1), 2, 2));
    assert_eq!(None, get_near_zone(&world, Border::BottomLeft(1), 2, 2));
    assert_eq!(Some(WorldTile::Jungle), get_near_zone(&world, Border::TopLeft(1), 2, 2));
    assert_eq!(Some(WorldTile::Beach), get_near_zone(&world, Border::TopRight(1), 1, 1));
    assert_eq!(Some(WorldTile::Jungle), get_near_zone(&world, Border::TopRight(1), 2, 0));
    assert_eq!(None, get_near_zone(&world, Border::Right(1), u32::MAX, u32::MAX));
    assert_eq!(None, get_near_zone(&world, Border::TopLeft(1), u32::MAX, 0));
}

#[test]
fn world_tile_of_a_zone() {
    let source = String::from(SOURCE);
    let legend = WorldMapLegend::new(&source).unwrap();
    let world = World::new(&source, &legend).unwrap();
    assert_eq!(Some(WorldTile::Sea), get_world_tile(&world, 0, 0));
    assert_eq!(Some(WorldTile::Hill), get_world_tile(&world, 1, 2));
    assert_eq!(None, get_world_tile(&world, 3, 0));
    assert_eq!(None, get_world_tile(&world, 0, 3));
}

#[test]
fn near_rule_fires_on_its_share_of_the_draws() {
    let rule = RandomNear { near: ZoneTile::Rock, tile: ZoneTile::Rock, probability: 40 };
    assert!(rule.fires(0));
    assert!(rule.fires(39));
    assert!(!rule.fires(40));
    assert!(!rule.fires(99));
    let never = RandomNear { near: ZoneTile::Rock, tile: ZoneTile::Rock, probability: 0 };
    let always = RandomNear { near: ZoneTile::Rock, tile: ZoneTile::Rock, probability: 100 };
    for draw in 0..100 {
        assert!(!never.fires(draw));
        assert!(always.fires(draw));
    }
    let fired = (0..100).filter(|draw| rule.fires(*draw)).count();
    assert_eq!(40, fired);
}

#[test]
fn around_is_left_or_above() {
    let chars = vec![vec!['a', 'b', 'c'], vec!['x']];
    assert!(is_there_around('x', &chars));
    assert!(is_there_around('a', &chars));
    assert!(is_there_around('c', &chars));
    assert!(!is_there_around('z', &chars));
    let chars = vec![vec!['a', 'b', 'c', 'd'], vec!['x', 'y', 'z']];
    assert!(!is_there_around('a', &chars));
    assert!(!is_there_around('b', &chars));
    assert!(is_there_around('c', &chars));
    assert!(is_there_around('d', &chars));
    assert!(!is_there_around('x', &chars));
    assert!(is_there_around('z', &chars));
    let chars: Vec<Vec<char>> = vec![];
    assert!(!is_there_around('a', &chars));
}

fn one_cell_world() -> String {
    String::from("::LEGEND\n~ SEA\n::GEO\n~")
}

#[test]
fn weighted_table_starts_with_the_default_tile() {
    let source = one_cell_world();
    let legend = WorldMapLegend::new(&source).unwrap();
    let world = World::new(&source, &legend).unwrap();
    let generator = DefaultGenerator {
        world: &world,
        default_tile: ZoneTile::Sand,
        random: Some(vec![(500, ZoneTile::DryBush), (100, ZoneTile::Rock)]),
        random_near: None,
        allow_overflow: None,
    };
    assert_eq!(vec![10000, 500, 100], generator.table_of_weights());
    assert_eq!(ZoneTile::Sand, generator.tile_choice(0));
    assert_eq!(ZoneTile::DryBush, generator.tile_choice(1));
    assert_eq!(ZoneTile::Rock, generator.tile_choice(2));
    assert_eq!(ZoneTile::Sand, generator.tile_choice(3));
    assert_eq!(ZoneTile::Sand, generator.tile_choice(usize::MAX));
    assert!(generator.is_well_formed());

    let bare = DefaultGenerator {
        world: &world,
        default_tile: ZoneTile::Dirt,
        random: None,
        random_near: None,
        allow_overflow: None,
    };
    assert_eq!(vec![10000], bare.table_of_weights());
    assert_eq!(ZoneTile::Dirt, bare.tile_choice(0));
    assert_eq!(ZoneTile::Dirt, bare.tile_choice(1));
    assert!(bare.is_well_formed());
}

#[test]
fn weights_that_do_not_fit_are_told() {
    let source = one_cell_world();
    let legend = WorldMapLegend::new(&source).unwrap();
    let world = World::new(&source, &legend).unwrap();
    let fits = DefaultGenerator {
        world: &world,
        default_tile: ZoneTile::Sand,
        random: Some(vec![(u32::MAX - 10000, ZoneTile::Rock)]),
        random_near: None,
        allow_overflow: None,
    };
    assert!(fits.is_well_formed());
    let too_heavy = DefaultGenerator {
        world: &world,
        default_tile: ZoneTile::Sand,
        random: Some(vec![(u32::MAX - 10000, ZoneTile::Rock), (1, ZoneTile::Dirt)]),
        random_near: None,
        allow_overflow: None,
    };
    assert!(!too_heavy.is_well_formed());
}

#[test]
fn overflow_needs_band_neighbour_and_rule() {
    let source = String::from("::LEGEND\n~ SEA\nb BEACH\n^ MOUNTAIN\n::GEO\nb~\n^b");
    let legend = WorldMapLegend::new(&source).unwrap();
    let world = World::new(&source, &legend).unwrap();
    let generator = DefaultGenerator {
        world: &world,
        default_tile: ZoneTile::Sand,
        random: None,
        random_near: None,
        allow_overflow: Some(vec![
            Overflow { world_tile: WorldTile::Mountain, default_tile: ZoneTile::Rock, depth: 1 },
            Overflow { world_tile: WorldTile::Sea, default_tile: ZoneTile::SaltedWater, depth: 3 },
            Overflow { world_tile: WorldTile::Sea, default_tile: ZoneTile::FreshWater, depth: 9 },
        ]),
    };
    assert_eq!(None, generator.overflow_for(None, 0, 0));
    assert_eq!(Some(ZoneTile::SaltedWater), generator.overflow_for(Some(Border::Right(1)), 0, 0));
    assert_eq!(Some(ZoneTile::SaltedWater), generator.overflow_for(Some(Border::Right(3)), 0, 0));
    assert_eq!(Some(ZoneTile::FreshWater), generator.overflow_for(Some(Border::Right(4)), 0, 0));
    assert_eq!(None, generator.overflow_for(Some(Border::Right(10)), 0, 0));
    assert_eq!(Some(ZoneTile::Rock), generator.overflow_for(Some(Border::Bottom(1)), 0, 0));
    assert_eq!(None, generator.overflow_for(Some(Border::Bottom(2)), 0, 0));
    assert_eq!(None, generator.overflow_for(Some(Border::BottomRight(1)), 0, 0));
    assert_eq!(None, generator.overflow_for(Some(Border::Left(1)), 0, 0));
    assert_eq!(None, generator.overflow_for(Some(Border::Top(1)), 0, 0));
    assert_eq!(Some(ZoneTile::SaltedWater), generator.overflow_for(Some(Border::Top(1)), 1, 1));

    let without = DefaultGenerator {
        world: &world,
        default_tile: ZoneTile::Sand,
        random: None,
        random_near: None,
        allow_overflow: None,
    };
    assert_eq!(None, without.overflow_for(Some(Border::Right(1)), 0, 0));
}

#[test]
fn sea_overflows_into_the_right_border_of_a_beach() {
    let source = String::from("::LEGEND\n~ SEA\nb BEACH\n::GEO\nb~");
    let legend = WorldMapLegend::new(&source).unwrap();
    let world = World::new(&source, &legend).unwrap();
    let generator = DefaultGenerator {
        world: &world,
        default_tile: ZoneTile::Sand,
        random: Some(vec![(500, ZoneTile::DryBush), (100, ZoneTile::Rock)]),
        random_near: Some(vec![RandomNear {
            near: ZoneTile::Sand,
            tile: ZoneTile::Rock,
            probability: 100,
        }]),
        allow_overflow: Some(vec![Overflow {
            world_tile: WorldTile::Sea,
            default_tile: ZoneTile::SaltedWater,
            depth: 3,
        }]),
    };
    for seed in 0..20u64 {
        let rows = generator.generate_rows(23, 23, 0, 0, seed);
        assert_eq!(23, rows.len());
        for row in 0..23u32 {
            assert_eq!(23, rows[row as usize].len());
            for col in 0..23u32 {
                let c = rows[row as usize][col as usize];
                let right = match is_in_border(23, 23, row, col, 2) {
                    Some(Border::Right(_)) => true,
                    _ => false,
                };
                if is_out_zone(23, 23, row, col) {
                    assert_eq!(' ', c);
                } else if right {
                    assert_eq!('~', c, "at {} {}", row, col);
                    assert!(col >= 21 && 7 <= row && row < 16);
                } else {
                    assert!(c == '⡩' || c == 'ʛ' || c == '#', "{} at {} {}", c, row, col);
                }
            }
        }
        for row in 7..16 {
            assert_eq!(vec!['~', '~'], rows[row][21..23].to_vec());
        }
    }
}

#[test]
fn shallow_overflow_rule_paints_the_outer_ring_only() {
    let source = String::from("::LEGEND\n~ SEA\nb BEACH\n::GEO\nb~");
    let legend = WorldMapLegend::new(&source).unwrap();
    let world = World::new(&source, &legend).unwrap();
    let generator = DefaultGenerator {
        world: &world,
        default_tile: ZoneTile::Sand,
        random: None,
        random_near: None,
        allow_overflow: Some(vec![Overflow {
            world_tile: WorldTile::Sea,
            default_tile: ZoneTile::SaltedWater,
            depth: 1,
        }]),
    };
    let text = generator.generate(7, 7, 0, 0, 3);
    assert_eq!(
        "::GEO\n  ⡩⡩⡩  \n ⡩⡩⡩⡩⡩ \n⡩⡩⡩⡩⡩⡩~\n⡩⡩⡩⡩⡩⡩~\n⡩⡩⡩⡩⡩⡩~\n ⡩⡩⡩⡩⡩ \n  ⡩⡩⡩  ",
        text
    );
    let sea_side = generator.generate(7, 7, 0, 1, 3);
    assert_eq!(
        "::GEO\n  ⡩⡩⡩  \n ⡩⡩⡩⡩⡩ \n⡩⡩⡩⡩⡩⡩⡩\n⡩⡩⡩⡩⡩⡩⡩\n⡩⡩⡩⡩⡩⡩⡩\n ⡩⡩⡩⡩⡩ \n  ⡩⡩⡩  ",
        sea_side
    );
}

#[test]
fn zone_without_rows_or_columns() {
    let source = one_cell_world();
    let legend = WorldMapLegend::new(&source).unwrap();
    let world = World::new(&source, &legend).unwrap();
    let generator = DefaultGenerator {
        world: &world,
        default_tile: ZoneTile::Sand,
        random: None,
        random_near: None,
        allow_overflow: None,
    };
    assert_eq!("::GEO\n", generator.generate(5, 0, 0, 0, 1));
    assert_eq!("::GEO\n\n\n", generator.generate(0, 3, 0, 0, 1));
    assert_eq!("::GEO\n⡩", generator.generate(1, 1, 0, 0, 1));
    assert_eq!(rows_of("::GEO\n⡩"), generator.generate_rows(1, 1, 0, 0, 1));
}

#[test]
fn text_is_header_and_rows() {
    let source = String::from(SOURCE);
    let legend = WorldMapLegend::new(&source).unwrap();
    let world = World::new(&source, &legend).unwrap();
    let generator = DefaultGenerator {
        world: &world,
        default_tile: ZoneTile::ShortGrass,
        random: Some(vec![(7000, ZoneTile::HightGrass), (10, ZoneTile::FreshWater)]),
        random_near: Some(vec![RandomNear {
            near: ZoneTile::FreshWater,
            tile: ZoneTile::FreshWater,
            probability: 25,
        }]),
        allow_overflow: None,
    };
    let text = generator.generate(15, 9, 1, 1, 99);
    let rows = generator.generate_rows(15, 9, 1, 1, 99);
    assert_eq!(rows_of(&text), rows);
    assert_eq!(9, rows.len());
    assert!(rows.iter().all(|row| row.len() == 15));
}

#[test]
fn propagation_follows_its_probability() {
    let source = one_cell_world();
    let legend = WorldMapLegend::new(&source).unwrap();
    let world = World::new(&source, &legend).unwrap();
    for probability in [40u32, 10, 75] {
        let generator = DefaultGenerator {
            world: &world,
            default_tile: ZoneTile::Rock,
            random: None,
            random_near: Some(vec![RandomNear {
                near: ZoneTile::Rock,
                tile: ZoneTile::Sand,
                probability,
            }]),
            allow_overflow: None,
        };
        let seeds = 4000u64;
        let mut propagated = 0u32;
        for seed in 0..seeds {
            let rows = generator.generate_rows(7, 7, 0, 0, seed);
            // The first position inside the octagon has nothing around it.
            assert_eq!(vec![' ', ' ', '#'], rows[0][0..3].to_vec());
            // The next one has a rock to its left.
            if rows[0][3] == '⡩' {
                propagated += 1;
            } else {
                assert_eq!('#', rows[0][3]);
            }
        }
        let share = propagated as f64 / seeds as f64;
        let expected = probability as f64 / 100.0;
        assert!((share - expected).abs() < 0.04, "{} for {}", share, expected);
    }
}

#[test]
fn propagation_extremes() {
    let source = one_cell_world();
    let legend = WorldMapLegend::new(&source).unwrap();
    let world = World::new(&source, &legend).unwrap();
    let always = DefaultGenerator {
        world: &world,
        default_tile: ZoneTile::Rock,
        random: None,
        random_near: Some(vec![
            RandomNear { near: ZoneTile::Dirt, tile: ZoneTile::Dirt, probability: 100 },
            RandomNear { near: ZoneTile::Rock, tile: ZoneTile::Sand, probability: 100 },
            RandomNear { near: ZoneTile::Rock, tile: ZoneTile::Dirt, probability: 100 },
            RandomNear { near: ZoneTile::Sand, tile: ZoneTile::Dirt, probability: 100 },
        ]),
        allow_overflow: None,
    };
    assert_eq!("::GEO\n #⡩⁖ ", always.generate(5, 1, 0, 0, 11));
    assert_eq!("::GEO\n#\n⡩\n⁖\n⁖\n⁖", always.generate(1, 5, 0, 0, 11));
    let never = DefaultGenerator {
        world: &world,
        default_tile: ZoneTile::Rock,
        random: None,
        random_near: Some(vec![RandomNear {
            near: ZoneTile::Rock,
            tile: ZoneTile::Sand,
            probability: 0,
        }]),
        allow_overflow: None,
    };
    assert_eq!("::GEO\n ### ", never.generate(5, 1, 0, 0, 11));
}

#[test]
fn weighted_fill_follows_the_weights() {
    let source = one_cell_world();
    let legend = WorldMapLegend::new(&source).unwrap();
    let world = World::new(&source, &legend).unwrap();
    let generator = DefaultGenerator {
        world: &world,
        default_tile: ZoneTile::Sand,
        random: Some(vec![(0, ZoneTile::Dirt), (10000, ZoneTile::Rock), (5000, ZoneTile::DryBush)]),
        random_near: None,
        allow_overflow: None,
    };
    let mut sand = 0u32;
    let mut rock = 0u32;
    let mut bush = 0u32;
    for seed in 0..200u64 {
        for row in generator.generate_rows(10, 10, 0, 0, seed) {
            for c in row {
                match c {
                    '⡩' => sand += 1,
                    '#' => rock += 1,
                    'ʛ' => bush += 1,
                    ' ' => {}
                    other => panic!("unexpected {}", other),
                }
            }
        }
    }
    let total = (sand + rock + bush) as f64;
    assert!((sand as f64 / total - 0.4).abs() < 0.02);
    assert!((rock as f64 / total - 0.4).abs() < 0.02);
    assert!((bush as f64 / total - 0.2).abs() < 0.02);
}

#[test]
fn seed_decides_the_zone() {
    let source = one_cell_world();
    let legend = WorldMapLegend::new(&source).unwrap();
    let world = World::new(&source, &legend).unwrap();
    let generator = DefaultGenerator {
        world: &world,
        default_tile: ZoneTile::Sand,
        random: Some(vec![(10000, ZoneTile::Rock)]),
        random_near: Some(vec![RandomNear {
            near: ZoneTile::Rock,
            tile: ZoneTile::Rock,
            probability: 30,
        }]),
        allow_overflow: None,
    };
    let mut distinct = std::collections::HashSet::new();
    for seed in 0..10u64 {
        let first = generator.generate(20, 20, 0, 0, seed);
        let again = generator.generate(20, 20, 0, 0, seed);
        assert_eq!(first, again);
        distinct.insert(first);
    }
    assert_eq!(10, distinct.len());
}
