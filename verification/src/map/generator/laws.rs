//! What holds of every zone, whatever the generator draws.

use super::shape::{border_at, out_of_zone, Border};
use super::policy::{policy_of, sea_policy_is_plain};
use super::random::seeded_state;
use super::zone::{
    choice_at, near_biome, near_outcome, overflow_tile, zone_text, Overflow, Policy, RandomNear,
    BLANK, BORDER_SPACING, PERCENT,
};
use crate::tile::world::types::WorldTile;
use crate::map::world::World;
use crate::tile::zone::types::{tile_char, tile_char_is_injective, ZoneTile};
use vstd::prelude::*;

verus! {

impl Policy {
    /// Whether the policy can paint `tile`: whether it is a tile of the
    /// weighted table, of a propagation rule or of an overflow rule.
    pub open spec fn may_paint(self, tile: ZoneTile) -> bool {
        ||| self.choices().contains(tile)
        ||| exists|i: int|
            0 <= i < self.near.len() && (#[trigger] self.near[i]).tile == tile
        ||| exists|i: int|
            0 <= i < self.overflow.len() && (#[trigger] self.overflow[i]).default_tile
                == tile
    }

    /// Whether the policy holds the default tile alone: no other tile in the
    /// weighted table, no propagation rule, no overflow rule.
    pub open spec fn is_plain(self) -> bool {
        self.random.len() == 0 && self.near.len() == 0
            && self.overflow.len() == 0
    }

    /// What every outcome of the fill has at `(row, col)`: a blank outside
    /// the octagon; inside it the character of a tile that the policy can
    /// paint, and that of the overflowing tile where one overflows.
    pub open spec fn cell_holds(
        self,
        world: &World,
        width: int,
        height: int,
        zone_row: int,
        zone_col: int,
        row: int,
        col: int,
        c: char,
    ) -> bool {
        if out_of_zone(width, height, row, col) {
            c == BLANK
        } else {
            &&& exists|tile: ZoneTile| self.may_paint(tile) && c == #[trigger] tile_char(tile)
            &&& match self.overflow_at(
                world,
                border_at(width, height, row, col, BORDER_SPACING as int),
                zone_row,
                zone_col,
            ) {
                Some(tile) => c == tile_char(tile),
                None => true,
            }
        }
    }
}

/// The tile of the overflow rule that applies is the tile of one of the
/// rules.
pub proof fn overflow_tile_is_of_a_rule(
    rules: Seq<Overflow>,
    biome: WorldTile,
    depth: u32,
    from: int,
)
    requires
        0 <= from,
    ensures
        overflow_tile(rules, biome, depth, from) matches Some(tile) ==> exists|i: int|
            from <= i < rules.len() && (#[trigger] rules[i]).applies_to(biome, depth)
                && rules[i].default_tile == tile && forall|j: int|
                from <= j < i ==> !(#[trigger] rules[j]).applies_to(biome, depth),
        overflow_tile(rules, biome, depth, from) is None ==> forall|j: int|
            from <= j < rules.len() ==> !(#[trigger] rules[j]).applies_to(biome, depth),
    decreases rules.len() - from,
{
    if from < rules.len() {
        if rules[from].applies_to(biome, depth) {
            assert(rules[from].default_tile == overflow_tile(rules, biome, depth, from).unwrap());
        } else {
            overflow_tile_is_of_a_rule(rules, biome, depth, from + 1);
            if overflow_tile(rules, biome, depth, from) is Some {
                let i = choose|i: int|
                    from + 1 <= i < rules.len() && (#[trigger] rules[i]).applies_to(biome, depth)
                        && rules[i].default_tile == overflow_tile(
                        rules,
                        biome,
                        depth,
                        from + 1,
                    ).unwrap() && forall|j: int|
                        from + 1 <= j < i ==> !(#[trigger] rules[j]).applies_to(biome, depth);
                assert forall|j: int| from <= j < i implies !(#[trigger] rules[j]).applies_to(
                    biome,
                    depth,
                ) by {}
            } else {
                assert forall|j: int| from <= j < rules.len() implies !(
                #[trigger] rules[j]).applies_to(biome, depth) by {}
            }
        }
    }
}

/// The tile that a propagation rule paints is the tile of one of the rules.
pub proof fn near_tile_is_of_a_rule(
    rules: Seq<RandomNear>,
    rows: Seq<Seq<char>>,
    state: Seq<u8>,
    from: int,
)
    requires
        0 <= from,
    ensures
        near_outcome(rules, rows, state, from).0 matches Some(tile) ==> exists|i: int|
            from <= i < rules.len() && (#[trigger] rules[i]).tile == tile,
    decreases rules.len() - from,
{
    if from < rules.len() {
        let draw = super::random::uniform_draw(state, super::zone::PERCENT);
        if super::zone::is_around(tile_char(rules[from].near), rows) {
            if rules[from].fires_on(draw.0) {
                assert(rules[from].tile == near_outcome(rules, rows, state, from).0.unwrap());
            } else {
                near_tile_is_of_a_rule(rules, rows, draw.1, from + 1);
            }
        } else {
            near_tile_is_of_a_rule(rules, rows, state, from + 1);
        }
    }
}

/// Whatever was painted before and whatever the generator draws, the
/// character painted at a position is one that the position may hold.
pub proof fn cell_outcome_holds(
    policy: Policy,
    world: &World,
    width: int,
    height: int,
    zone_row: int,
    zone_col: int,
    rows: Seq<Seq<char>>,
    state: Seq<u8>,
    row: int,
    col: int,
)
    ensures
        policy.cell_holds(
            world,
            width,
            height,
            zone_row,
            zone_col,
            row,
            col,
            policy.cell_outcome(world, width, height, zone_row, zone_col, rows, state, row, col).0,
        ),
{
    let cell = policy.cell_outcome(world, width, height, zone_row, zone_col, rows, state, row, col);
    if !out_of_zone(width, height, row, col) {
        let border = border_at(width, height, row, col, BORDER_SPACING as int);
        match policy.overflow_at(world, border, zone_row, zone_col) {
            Some(tile) => {
                let band = border.unwrap();
                let biome = near_biome(world, band, zone_row, zone_col).unwrap();
                overflow_tile_is_of_a_rule(policy.overflow, biome, band.depth(), 0);
                assert(policy.may_paint(tile));
                assert(cell.0 == tile_char(tile));
            },
            None => {
                let near = near_outcome(policy.near, rows, state, 0);
                near_tile_is_of_a_rule(policy.near, rows, state, 0);
                match near.0 {
                    Some(tile) => {
                        assert(policy.may_paint(tile));
                        assert(cell.0 == tile_char(tile));
                    },
                    None => {
                        let draw = super::random::weighted_draw(near.1, policy.weights());
                        let tile = choice_at(policy.choices(), draw.0 as int);
                        assert(policy.choices()[0] == policy.default_tile);
                        assert(policy.choices().contains(tile));
                        assert(policy.may_paint(tile));
                        assert(cell.0 == tile_char(tile));
                    },
                }
            },
        }
    }
}

/// The first `n` characters of a row: there are `n` of them, they are the
/// first of any longer fill of the row, and each is one that its position
/// may hold.
pub proof fn fill_row_holds(
    policy: Policy,
    world: &World,
    width: int,
    height: int,
    zone_row: int,
    zone_col: int,
    above: Seq<Seq<char>>,
    state: Seq<u8>,
    row: int,
    n: nat,
)
    ensures
        policy.fill_row(world, width, height, zone_row, zone_col, above, state, row, n).0.len()
            == n,
        forall|col: int|
            0 <= col < n ==> policy.cell_holds(
                world,
                width,
                height,
                zone_row,
                zone_col,
                row,
                col,
                #[trigger] policy.fill_row(
                    world,
                    width,
                    height,
                    zone_row,
                    zone_col,
                    above,
                    state,
                    row,
                    n,
                ).0[col],
            ),
    decreases n,
{
    if n > 0 {
        let before = policy.fill_row(
            world,
            width,
            height,
            zone_row,
            zone_col,
            above,
            state,
            row,
            (n - 1) as nat,
        );
        fill_row_holds(
            policy,
            world,
            width,
            height,
            zone_row,
            zone_col,
            above,
            state,
            row,
            (n - 1) as nat,
        );
        cell_outcome_holds(
            policy,
            world,
            width,
            height,
            zone_row,
            zone_col,
            above.push(before.0),
            before.1,
            row,
            n - 1,
        );
        let full = policy.fill_row(
            world,
            width,
            height,
            zone_row,
            zone_col,
            above,
            state,
            row,
            n,
        ).0;
        assert forall|col: int| 0 <= col < n implies policy.cell_holds(
            world,
            width,
            height,
            zone_row,
            zone_col,
            row,
            col,
            #[trigger] full[col],
        ) by {
            if col < n - 1 {
                assert(full[col] == before.0[col]);
            }
        }
    }
}

/// The first `n` rows of a zone: there are `n` of them, each `width` long,
/// and each character is one that its position may hold.
pub proof fn fill_rows_hold(
    policy: Policy,
    world: &World,
    width: int,
    height: int,
    zone_row: int,
    zone_col: int,
    state: Seq<u8>,
    n: nat,
)
    requires
        0 <= width,
    ensures
        policy.fill_rows(world, width, height, zone_row, zone_col, state, n).0.len() == n,
        forall|row: int|
            0 <= row < n ==> (#[trigger] policy.fill_rows(
                world,
                width,
                height,
                zone_row,
                zone_col,
                state,
                n,
            ).0[row]).len() == width,
        forall|row: int, col: int|
            0 <= row < n && 0 <= col < width ==> policy.cell_holds(
                world,
                width,
                height,
                zone_row,
                zone_col,
                row,
                col,
                #[trigger] policy.fill_rows(
                    world,
                    width,
                    height,
                    zone_row,
                    zone_col,
                    state,
                    n,
                ).0[row][col],
            ),
    decreases n,
{
    if n > 0 {
        let above = policy.fill_rows(
            world,
            width,
            height,
            zone_row,
            zone_col,
            state,
            (n - 1) as nat,
        );
        fill_rows_hold(policy, world, width, height, zone_row, zone_col, state, (n - 1) as nat);
        fill_row_holds(
            policy,
            world,
            width,
            height,
            zone_row,
            zone_col,
            above.0,
            above.1,
            n - 1,
            width as nat,
        );
        let all = policy.fill_rows(world, width, height, zone_row, zone_col, state, n).0;
        assert forall|row: int| 0 <= row < n implies (#[trigger] all[row]).len() == width by {
            if row < n - 1 {
                assert(all[row] == above.0[row]);
            }
        }
        assert forall|row: int, col: int|
            0 <= row < n && 0 <= col < width implies policy.cell_holds(
            world,
            width,
            height,
            zone_row,
            zone_col,
            row,
            col,
            #[trigger] all[row][col],
        ) by {
            if row < n - 1 {
                assert(all[row] == above.0[row]);
            }
        }
    }
}

/// A zone has `height` rows of `width` characters. A position outside the
/// octagon is blank, whatever the seed; a position inside holds the
/// character of a tile that the policy can paint, and never a blank.
pub proof fn zone_keeps_its_shape(
    policy: Policy,
    world: &World,
    width: int,
    height: int,
    zone_row: int,
    zone_col: int,
    state: Seq<u8>,
    row: int,
    col: int,
)
    requires
        0 <= row < height,
        0 <= col < width,
    ensures
        policy.zone_rows(world, width, height, zone_row, zone_col, state).len() == height,
        policy.zone_rows(world, width, height, zone_row, zone_col, state)[row].len() == width,
        policy.cell_holds(
            world,
            width,
            height,
            zone_row,
            zone_col,
            row,
            col,
            policy.zone_rows(world, width, height, zone_row, zone_col, state)[row][col],
        ),
        policy.zone_rows(world, width, height, zone_row, zone_col, state)[row][col] == BLANK
            <==> out_of_zone(width, height, row, col),
{
    fill_rows_hold(policy, world, width, height, zone_row, zone_col, state, height as nat);
    let c = policy.zone_rows(world, width, height, zone_row, zone_col, state)[row][col];
    if !out_of_zone(width, height, row, col) {
        let tile = choose|tile: ZoneTile| policy.may_paint(tile) && c == #[trigger] tile_char(tile);
        tile_char_is_injective(tile, tile);
    }
}

/// Overflow on the right: in a zone whose right neighbour has the biome of
/// an overflow rule, a position of the right border band no deeper than the
/// rule allows holds the rule's tile, whatever the propagation rules and the
/// weighted table would paint and whatever the seed. Of several rules that
/// apply, the first paints.
pub proof fn overflow_paints_right_border(
    policy: Policy,
    world: &World,
    width: int,
    height: int,
    zone_row: int,
    zone_col: int,
    state: Seq<u8>,
    row: int,
    col: int,
    depth: u32,
    rule: int,
)
    requires
        0 <= row < height,
        0 <= col < width,
        !out_of_zone(width, height, row, col),
        border_at(width, height, row, col, BORDER_SPACING as int) == Some(Border::Right(depth)),
        0 <= rule < policy.overflow.len(),
        world.biome_at(zone_row, zone_col + 1) == Some(
            policy.overflow[rule].world_tile,
        ),
        depth <= policy.overflow[rule].depth,
        forall|j: int|
            0 <= j < rule ==> !(#[trigger] policy.overflow[j]).applies_to(
                policy.overflow[rule].world_tile,
                depth,
            ),
    ensures
        policy.zone_rows(world, width, height, zone_row, zone_col, state)[row][col] == tile_char(
            policy.overflow[rule].default_tile,
        ),
{
    let rules = policy.overflow;
    let biome = rules[rule].world_tile;
    overflow_tile_is_of_a_rule(rules, biome, depth, 0);
    assert(rules[rule].applies_to(biome, depth));
    assert(overflow_tile(rules, biome, depth, 0) == Some(rules[rule].default_tile));
    zone_keeps_its_shape(policy, world, width, height, zone_row, zone_col, state, row, col);
}

/// A zone of a plain policy holds the default tile at every position inside
/// the octagon and a blank at every position outside, whatever the seed.
pub proof fn plain_zone_is_uniform(
    policy: Policy,
    world: &World,
    width: int,
    height: int,
    zone_row: int,
    zone_col: int,
    state: Seq<u8>,
    row: int,
    col: int,
)
    requires
        policy.is_plain(),
        0 <= row < height,
        0 <= col < width,
    ensures
        policy.zone_rows(world, width, height, zone_row, zone_col, state)[row][col]
            == if out_of_zone(width, height, row, col) {
            BLANK
        } else {
            tile_char(policy.default_tile)
        },
{
    zone_keeps_its_shape(policy, world, width, height, zone_row, zone_col, state, row, col);
    if !out_of_zone(width, height, row, col) {
        let c = policy.zone_rows(world, width, height, zone_row, zone_col, state)[row][col];
        let tile = choose|tile: ZoneTile| policy.may_paint(tile) && c == #[trigger] tile_char(tile);
        assert(policy.choices() =~= seq![policy.default_tile]);
        assert(tile == policy.default_tile);
    }
}

/// The zones of the sea hold salted water at every position inside the
/// octagon and a blank at every position outside, whatever the seed.
pub proof fn sea_zone_is_water(
    world: &World,
    width: int,
    height: int,
    zone_row: int,
    zone_col: int,
    state: Seq<u8>,
    row: int,
    col: int,
)
    requires
        0 <= row < height,
        0 <= col < width,
    ensures
        policy_of(WorldTile::Sea).zone_rows(
            world,
            width,
            height,
            zone_row,
            zone_col,
            state,
        )[row][col] == if out_of_zone(width, height, row, col) {
            ' '
        } else {
            '~'
        },
{
    sea_policy_is_plain();
    plain_zone_is_uniform(
        policy_of(WorldTile::Sea),
        world,
        width,
        height,
        zone_row,
        zone_col,
        state,
        row,
        col,
    );
}

/// The same seed gives the same zone: two fills of the same policy, in the
/// same world, of the same size and at the same place, from generators made
/// of the same seed, give the same rows and the same text.
pub proof fn same_seed_gives_same_zone(
    policy: Policy,
    world: &World,
    width: int,
    height: int,
    zone_row: int,
    zone_col: int,
    seed: u64,
    first: Seq<Seq<char>>,
    second: Seq<Seq<char>>,
)
    requires
        first == policy.zone_rows(world, width, height, zone_row, zone_col, seeded_state(seed)),
        second == policy.zone_rows(world, width, height, zone_row, zone_col, seeded_state(seed)),
    ensures
        first == second,
        zone_text(first) == zone_text(second),
{
}

/// A propagation rule fires on as many of the hundred draws as its
/// probability says, and on all of them from a hundred percent on.
pub proof fn rule_fires_on_its_share(rule: RandomNear)
    ensures
        Set::new(|draw: int| 0 <= draw < PERCENT && rule.fires_on(draw as u32)).len()
            == if rule.probability < PERCENT {
            rule.probability
        } else {
            PERCENT
        },
{
    let share: int = if rule.probability < PERCENT {
        rule.probability as int
    } else {
        PERCENT as int
    };
    vstd::set_lib::lemma_int_range(0, share);
    assert(Set::new(|draw: int| 0 <= draw < PERCENT && rule.fires_on(draw as u32))
        =~= vstd::set_lib::set_int_range(0, share));
}

} // verus!
