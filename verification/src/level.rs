//! The level: where the obstacles, the lights and the tiles of the background
//! wall stand, and what they look like, all from one seed.
//!
//! The level is drawn from a ChaCha generator with eight rounds, seeded with
//! the level's seed. The order of the draws is part of what a seed means: one
//! draw more, fewer or elsewhere, and every seed names another level.
//!
//! The real numbers among the draws are the caller's to make, since nothing
//! here works in floating point: the caller hands in the function that draws
//! one real number, on the grid of [`ONE`], from the generator it is lent.

use crate::error::CoreError;
use crate::material::{code_text_spells_color, decimal_read_as_hex, Material, COLOR_CODES};
use crate::units::{from_whole, in_span, whole, ONE};
use rand::{Rng, SeedableRng};
use rand_chacha::ChaCha8Rng;
use vstd::prelude::*;

verus! {

/// The number of obstacles in a level.
pub const OBSTACLE_COUNT: usize = 40;

/// The number of lights in a level.
pub const LIGHT_COUNT: usize = 150;

/// Where the background wall begins, in world units.
pub const LEVEL_MIN_X: i16 = -10;

/// Where the level and its background wall end, in world units.
pub const LEVEL_MAX_X: i16 = 200;

/// The height of the background wall, in tiles of one world unit.
pub const WALL_HEIGHT: i16 = 10;

/// The number of tiles in the background wall.
pub const WALL_TILES: usize = 2100;

/// The highest that a light can hang, in world units.
pub const LIGHT_MAX_Y: i16 = 10;

/// The ChaCha generator with eight rounds, `rand_chacha::ChaCha8Rng`. The
/// library carries it from draw to draw and knows nothing of what is in it.
#[verifier::external_type_specification]
#[verifier::external_body]
pub struct ExChaCha8Rng(ChaCha8Rng);

/// `ChaCha8Rng::seed_from_u64`, which makes a generator of any seed. Nothing
/// is claimed of the generator.
#[verifier::external_body]
fn seeded_rng(seed: u64) -> (rng: ChaCha8Rng) {
    ChaCha8Rng::seed_from_u64(seed)
}

/// `Rng::gen_range` on `low..high` of `u64`, which panics on an empty range and
/// otherwise returns a number at or above `low` and below `high`. Which one
/// depends on the generator, of which nothing is claimed.
#[verifier::external_body]
fn draw_below(rng: &mut ChaCha8Rng, low: u64, high: u64) -> (drawn: u64)
    requires
        low < high,
    ensures
        low <= drawn < high,
{
    rng.gen_range(low..high)
}

/// A sphere in the player's way, of the same radius as the player's.
#[derive(Clone, Copy, Debug, PartialEq, Eq, Structural)]
pub struct Obstacle {
    /// How far along the level the centre is.
    pub x: i64,
    /// How high above the floor the centre is.
    pub y: i64,
    pub material: Material,
}

/// A tile of the background wall, a cube of one world unit.
#[derive(Clone, Copy, Debug, PartialEq, Eq, Structural)]
pub struct BgObject {
    /// How far along the level the tile is.
    pub x: i64,
    /// How high above the floor the tile is.
    pub y: i64,
    /// How far in front of the plane of the game the tile is: less than nothing.
    pub z: i64,
    pub material: Material,
}

/// A level: what a seed stands for. Nothing changes it once it is generated.
#[derive(Clone, Debug, PartialEq, Eq)]
pub struct Level {
    /// The spheres in the player's way.
    pub obstacles: Vec<Obstacle>,
    /// Where each light hangs: how far along the level, and how high.
    pub lights: Vec<(i64, i64)>,
    /// The seed that the level was generated from.
    pub seed: u64,
    /// The tiles of the background wall, column by column from the left and
    /// in each column from the floor up.
    pub bg_objects: Vec<BgObject>,
}

impl Obstacle {
    /// The obstacle stands between one and two hundred world units along the
    /// level, less than one unit above the floor.
    pub open spec fn wf(self) -> bool {
        &&& whole(1) <= self.x < whole(LEVEL_MAX_X as int)
        &&& 0 <= self.y < ONE
        &&& self.material.wf()
    }

    /// The obstacle that two draws and a material make, where the draws are in range.
    pub open spec fn of_draws(x: i64, y: i64, material: Material) -> Result<Obstacle, CoreError> {
        if whole(1) <= x < whole(LEVEL_MAX_X as int) && 0 <= y < ONE {
            Ok(Obstacle { x, y, material })
        } else {
            Err(CoreError::DrawOutOfRange)
        }
    }

    /// Makes an obstacle of the two draws that place it and of its material.
    pub fn from_draws(x: i64, y: i64, material: Material) -> (r: Result<Obstacle, CoreError>)
        ensures
            r == Obstacle::of_draws(x, y, material),
            r matches Ok(obstacle) ==> (material.wf() ==> obstacle.wf()),
    {
        if in_span(x, 1, LEVEL_MAX_X) && in_span(y, 0, 1) {
            Ok(Obstacle { x, y, material })
        } else {
            Err(CoreError::DrawOutOfRange)
        }
    }
}

/// The light hangs between one and two hundred world units along the level,
/// less than ten units above the floor.
pub open spec fn light_wf(light: (i64, i64)) -> bool {
    &&& whole(1) <= light.0 < whole(LEVEL_MAX_X as int)
    &&& 0 <= light.1 < whole(LIGHT_MAX_Y as int)
}

/// Makes a light of the two draws that place it.
pub fn light_from_draws(x: i64, y: i64) -> (r: Result<(i64, i64), CoreError>)
    ensures
        light_wf((x, y)) ==> r == Ok::<(i64, i64), CoreError>((x, y)),
        !light_wf((x, y)) ==> r == Err::<(i64, i64), CoreError>(CoreError::DrawOutOfRange),
{
    if in_span(x, 1, LEVEL_MAX_X) && in_span(y, 0, LIGHT_MAX_Y) {
        Ok((x, y))
    } else {
        Err(CoreError::DrawOutOfRange)
    }
}

impl BgObject {
    /// The tile fills its place in the wall, column by column from the left
    /// and in each column from the floor up, between one and two world units
    /// behind the plane of the game.
    pub open spec fn wf_at(self, index: int) -> bool {
        &&& self.x == whole(LEVEL_MIN_X + index / (WALL_HEIGHT as int))
        &&& self.y == whole(index % (WALL_HEIGHT as int))
        &&& -whole(2) < self.z <= -whole(1)
        &&& self.material.wf()
    }

    /// The tile of a column and a row that the draw of its depth and a
    /// material make, where the draw is in range.
    pub open spec fn of_draws(column: i16, row: i16, depth: i64, material: Material) -> Result<
        BgObject,
        CoreError,
    > {
        if whole(1) <= depth < whole(2) {
            Ok(
                BgObject {
                    x: whole(column as int) as i64,
                    y: whole(row as int) as i64,
                    z: (-depth) as i64,
                    material,
                },
            )
        } else {
            Err(CoreError::DrawOutOfRange)
        }
    }

    /// Makes the tile of a column and a row, as far behind the plane of the
    /// game as the draw says.
    pub fn from_draws(column: i16, row: i16, depth: i64, material: Material) -> (r: Result<
        BgObject,
        CoreError,
    >)
        ensures
            r == BgObject::of_draws(column, row, depth, material),
    {
        if in_span(depth, 1, 2) {
            Ok(BgObject { x: from_whole(column), y: from_whole(row), z: -depth, material })
        } else {
            Err(CoreError::DrawOutOfRange)
        }
    }
}

/// The function may be asked for a real number of any range that is not empty.
pub open spec fn draws_any_range<F: Fn(&mut ChaCha8Rng, i16, i16) -> i64>(draw_real: &F) -> bool {
    forall|rng: &mut ChaCha8Rng, low: i16, high: i16|
        low < high ==> call_requires(*draw_real, (rng, low, high))
}

/// Whatever the function returns lies in the range that it was asked for, if
/// that is not empty: at or above `low` world units and below `high`.
pub open spec fn keeps_range<F: Fn(&mut ChaCha8Rng, i16, i16) -> i64>(draw_real: &F) -> bool {
    forall|rng: &mut ChaCha8Rng, low: i16, high: i16, drawn: i64|
        low < high && call_ensures(*draw_real, (rng, low, high), drawn) ==> whole(low as int)
            <= drawn < whole(high as int)
}

/// The number is one that the function has returned when it was asked for a
/// real number from `low` to `high`.
pub open spec fn drawn_from<F: Fn(&mut ChaCha8Rng, i16, i16) -> i64>(
    draw_real: &F,
    low: i16,
    high: i16,
    drawn: i64,
) -> bool {
    exists|rng: &mut ChaCha8Rng| call_ensures(*draw_real, (rng, low, high), drawn)
}

/// The material is made of draws: its two scalars of reals of the unit
/// interval, and its colour of a code below [`COLOR_CODES`].
pub open spec fn material_drawn<F: Fn(&mut ChaCha8Rng, i16, i16) -> i64>(
    draw_real: &F,
    material: Material,
) -> bool {
    &&& drawn_from(draw_real, 0, 1, material.metallic)
    &&& drawn_from(draw_real, 0, 1, material.perceptual_roughness)
    &&& exists|code: u64|
        code < COLOR_CODES && material.color == #[trigger] decimal_read_as_hex(code as nat)
}

/// The obstacle is made of draws: where it stands along the level, how high,
/// and its material.
pub open spec fn obstacle_drawn<F: Fn(&mut ChaCha8Rng, i16, i16) -> i64>(
    draw_real: &F,
    obstacle: Obstacle,
) -> bool {
    &&& drawn_from(draw_real, 1, LEVEL_MAX_X, obstacle.x)
    &&& drawn_from(draw_real, 0, 1, obstacle.y)
    &&& material_drawn(draw_real, obstacle.material)
}

/// The light is made of draws: where it hangs along the level, and how high.
pub open spec fn light_drawn<F: Fn(&mut ChaCha8Rng, i16, i16) -> i64>(
    draw_real: &F,
    light: (i64, i64),
) -> bool {
    &&& drawn_from(draw_real, 1, LEVEL_MAX_X, light.0)
    &&& drawn_from(draw_real, 0, LIGHT_MAX_Y, light.1)
}

/// The tile is made of draws: how far behind the plane of the game it lies,
/// between one and two world units, and its material.
pub open spec fn tile_drawn<F: Fn(&mut ChaCha8Rng, i16, i16) -> i64>(
    draw_real: &F,
    tile: BgObject,
) -> bool {
    &&& drawn_from(draw_real, 1, 2, (-tile.z) as i64)
    &&& material_drawn(draw_real, tile.material)
}

/// Draws a material: how metallic it is, how rough it is, and its colour code,
/// in this order. The two scalars are real numbers of the unit interval.
///
/// A code is drawn below [`COLOR_CODES`], so every code has a colour. A scalar
/// that `draw_real` returns outside the unit interval is refused as
/// [`CoreError::DrawOutOfRange`]; where `draw_real` keeps its range, there is a
/// material.
pub fn random_material<F: Fn(&mut ChaCha8Rng, i16, i16) -> i64>(
    rng: &mut ChaCha8Rng,
    draw_real: &F,
) -> (r: Result<Material, CoreError>)
    requires
        draws_any_range(draw_real),
    ensures
        r matches Ok(material) ==> material.wf() && material_drawn(draw_real, material),
        r matches Err(e) ==> e == CoreError::DrawOutOfRange,
        keeps_range(draw_real) ==> r is Ok,
{
    let metallic: i64 = draw_real(rng, 0, 1);
    let perceptual_roughness: i64 = draw_real(rng, 0, 1);
    let code: u64 = draw_below(rng, 0, COLOR_CODES);
    proof {
        code_text_spells_color(code as nat);
    }
    Material::from_draws(metallic, perceptual_roughness, code)
}

impl Level {
    /// The level has its forty obstacles, its hundred and fifty lights and
    /// every tile of its wall, each in its place.
    pub open spec fn wf(self) -> bool {
        &&& self.obstacles.len() == OBSTACLE_COUNT
        &&& forall|i: int| 0 <= i < self.obstacles.len() ==> (#[trigger] self.obstacles[i]).wf()
        &&& self.lights.len() == LIGHT_COUNT
        &&& forall|i: int| 0 <= i < self.lights.len() ==> light_wf(#[trigger] self.lights[i])
        &&& self.bg_objects.len() == WALL_TILES
        &&& forall|i: int|
            0 <= i < self.bg_objects.len() ==> (#[trigger] self.bg_objects[i]).wf_at(i)
    }

    /// Every real number in the level is one that `draw_real` has returned
    /// when it was asked for the range of that number, and every colour is
    /// that of a code below [`COLOR_CODES`].
    pub open spec fn drawn_by<F: Fn(&mut ChaCha8Rng, i16, i16) -> i64>(
        self,
        draw_real: &F,
    ) -> bool {
        &&& forall|i: int|
            0 <= i < self.obstacles.len() ==> obstacle_drawn(
                draw_real,
                #[trigger] self.obstacles[i],
            )
        &&& forall|i: int|
            0 <= i < self.lights.len() ==> light_drawn(draw_real, #[trigger] self.lights[i])
        &&& forall|i: int|
            0 <= i < self.bg_objects.len() ==> tile_drawn(
                draw_real,
                #[trigger] self.bg_objects[i],
            )
    }

    /// Generates the level of a seed.
    ///
    /// The generator is seeded, and then drawn from in this order: for each
    /// obstacle where it stands along the level, how high, and its material;
    /// for each light where it hangs along the level and how high; for each
    /// tile of the wall, column by column and in each column from the floor
    /// up, how far behind the plane of the game it lies, and its material.
    ///
    /// A real number that `draw_real` returns outside the range it was asked
    /// for is refused as [`CoreError::DrawOutOfRange`], and nothing else is:
    /// where `draw_real` keeps its range, there is a level.
    pub fn new<F: Fn(&mut ChaCha8Rng, i16, i16) -> i64>(seed: u64, draw_real: F) -> (r: Result<
        Level,
        CoreError,
    >)
        requires
            draws_any_range(&draw_real),
        ensures
            r matches Ok(level) ==> level.wf() && level.seed == seed && level.drawn_by(
                &draw_real,
            ),
            r matches Err(e) ==> e == CoreError::DrawOutOfRange,
            keeps_range(&draw_real) ==> r is Ok,
    {
        let mut rng = seeded_rng(seed);

        let mut obstacles: Vec<Obstacle> = Vec::new();
        let mut lights: Vec<(i64, i64)> = Vec::new();
        let mut bg_objects: Vec<BgObject> = Vec::new();

        while obstacles.len() < OBSTACLE_COUNT
            invariant
                draws_any_range(&draw_real),
                obstacles.len() <= OBSTACLE_COUNT,
                forall|i: int| 0 <= i < obstacles.len() ==> (#[trigger] obstacles[i]).wf(),
                forall|i: int|
                    0 <= i < obstacles.len() ==> obstacle_drawn(&draw_real, #[trigger] obstacles[i]),
            decreases OBSTACLE_COUNT - obstacles.len(),
        {
            let x: i64 = draw_real(&mut rng, 1, LEVEL_MAX_X);
            let y: i64 = draw_real(&mut rng, 0, 1);
            let material = match random_material(&mut rng, &draw_real) {
                Ok(material) => material,
                Err(e) => {
                    return Err(e);
                },
            };
            match Obstacle::from_draws(x, y, material) {
                Ok(obstacle) => {
                    obstacles.push(obstacle);
                },
                Err(e) => {
                    return Err(e);
                },
            }
        }

        while lights.len() < LIGHT_COUNT
            invariant
                draws_any_range(&draw_real),
                lights.len() <= LIGHT_COUNT,
                forall|i: int| 0 <= i < lights.len() ==> light_wf(#[trigger] lights[i]),
                forall|i: int| 0 <= i < lights.len() ==> light_drawn(&draw_real, #[trigger] lights[i]),
            decreases LIGHT_COUNT - lights.len(),
        {
            let x: i64 = draw_real(&mut rng, 1, LEVEL_MAX_X);
            let y: i64 = draw_real(&mut rng, 0, LIGHT_MAX_Y);
            match light_from_draws(x, y) {
                Ok(light) => {
                    lights.push(light);
                },
                Err(e) => {
                    return Err(e);
                },
            }
        }

        let mut column: i16 = LEVEL_MIN_X;
        while column < LEVEL_MAX_X
            invariant
                draws_any_range(&draw_real),
                LEVEL_MIN_X <= column <= LEVEL_MAX_X,
                bg_objects.len() == (column - LEVEL_MIN_X) * WALL_HEIGHT,
                forall|i: int| 0 <= i < bg_objects.len() ==> (#[trigger] bg_objects[i]).wf_at(i),
                forall|i: int|
                    0 <= i < bg_objects.len() ==> tile_drawn(&draw_real, #[trigger] bg_objects[i]),
            decreases LEVEL_MAX_X - column,
        {
            let mut row: i16 = 0;
            while row < WALL_HEIGHT
                invariant
                    draws_any_range(&draw_real),
                    LEVEL_MIN_X <= column < LEVEL_MAX_X,
                    0 <= row <= WALL_HEIGHT,
                    bg_objects.len() == (column - LEVEL_MIN_X) * WALL_HEIGHT + row,
                    forall|i: int|
                        0 <= i < bg_objects.len() ==> (#[trigger] bg_objects[i]).wf_at(i),
                    forall|i: int|
                        0 <= i < bg_objects.len() ==> tile_drawn(
                            &draw_real,
                            #[trigger] bg_objects[i],
                        ),
                decreases WALL_HEIGHT - row,
            {
                let depth: i64 = draw_real(&mut rng, 1, 2);
                let material = match random_material(&mut rng, &draw_real) {
                    Ok(material) => material,
                    Err(e) => {
                        return Err(e);
                    },
                };
                match BgObject::from_draws(column, row, depth, material) {
                    Ok(tile) => {
                        assert(tile.wf_at(bg_objects.len() as int));
                        bg_objects.push(tile);
                    },
                    Err(e) => {
                        return Err(e);
                    },
                }
                row += 1;
            }
            column += 1;
        }

        Ok(Level { obstacles, lights, seed, bg_objects })
    }
}

} // verus!
