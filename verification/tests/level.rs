use rand::{Rng, SeedableRng};
use rand_chacha::ChaCha8Rng;
use sphere_runner::error::CoreError;
use sphere_runner::game::{Input, World, SCROLL_VELOCITY, BOOST_VELOCITY, PLAYER_START_X};
use sphere_runner::level::{
    light_from_draws, random_material, BgObject, Level, Obstacle, LEVEL_MAX_X, LEVEL_MIN_X,
    LIGHT_COUNT, OBSTACLE_COUNT, WALL_HEIGHT, WALL_TILES,
};
use sphere_runner::material::Material;
use sphere_runner::units::ONE;

/// Draws a single-precision number of the range and puts it on the grid.
fn draw_real(rng: &mut ChaCha8Rng, low: i16, high: i16) -> i64 {
    let drawn: f32 = rng.gen_range(f32::from(low)..f32::from(high));
    (f64::from(drawn) * ONE as f64) as i64
}

fn world_units(v: i64) -> f32 {
    (v as f64 / ONE as f64) as f32
}

fn grey() -> Material {
    Material { color: 0x444444, metallic: ONE / 2, perceptual_roughness: 0 }
}

#[test]
fn level_has_forty_obstacles_a_hundred_and_fifty_lights_and_the_whole_wall() {
    let level = Level::new(0x1234_5678, draw_real).unwrap();
    assert_eq!(level.seed, 0x1234_5678);
    assert_eq!(level.obstacles.len(), 40);
    assert_eq!(level.lights.len(), 150);
    assert_eq!(level.bg_objects.len(), 2100);
    assert_eq!(OBSTACLE_COUNT, 40);
    assert_eq!(LIGHT_COUNT, 150);
    assert_eq!(WALL_TILES, 2100);
}

#[test]
fn first_obstacles_of_the_usual_seed() {
    let level = Level::new(0x1234_5678, draw_real).unwrap();
    let first = level.obstacles[0];
    assert_eq!(first.x, 509_415_690_240);
    assert_eq!(first.y, 2_152_774_800);
    assert_eq!(first.material.color, 0x150182);
    assert_eq!(first.material.metallic, 5_427_709_200);
    assert_eq!(first.material.perceptual_roughness, 2_228_231_520);
    assert_eq!(world_units(first.x), 84.34317);
    assert_eq!(world_units(first.y), 0.3564316);
    assert_eq!((level.obstacles[1].x, level.obstacles[1].y), (754_136_202_240, 3_502_360_800));
    assert_eq!(level.obstacles[1].material.color, 0x994030);
    assert_eq!((level.obstacles[2].x, level.obstacles[2].y), (190_661_230_080, 3_119_750_640));
    assert_eq!(level.obstacles[2].material.color, 0x939366);
}

#[test]
fn lights_and_wall_of_the_usual_seed() {
    let level = Level::new(0x1234_5678, draw_real).unwrap();
    assert_eq!(level.lights[0], (70_544_453_760, 2_934_439_200));
    assert_eq!(level.lights[149], (258_908_497_920, 59_689_733_760));
    let first = level.bg_objects[0];
    assert_eq!((first.x, first.y, first.z), (-10 * ONE, 0, -10_065_864_960));
    assert_eq!(first.material.color, 0x573590);
    let last = level.bg_objects[2099];
    assert_eq!((last.x, last.y, last.z), (199 * ONE, 9 * ONE, -6_706_737_360));
    assert_eq!(last.material.color, 0x481226);
}

#[test]
fn level_of_seed_zero() {
    let level = Level::new(0, draw_real).unwrap();
    assert_eq!(level.seed, 0);
    assert_eq!(level.obstacles.len(), 40);
    assert_eq!(level.lights.len(), 150);
    assert_eq!(level.bg_objects.len(), 2100);
    assert_eq!((level.obstacles[0].x, level.obstacles[0].y), (792_933_120_000, 4_282_671_600));
    assert_eq!((level.obstacles[1].x, level.obstacles[1].y), (680_277_058_560, 363_421_440));
    assert_eq!((level.obstacles[2].x, level.obstacles[2].y), (504_563_788_800, 5_006_898_000));
    assert_eq!(world_units(level.obstacles[0].x), 131.28471);
    assert_eq!(world_units(level.obstacles[0].y), 0.70907533);
    assert_eq!(world_units(level.obstacles[1].x), 112.63242);
    assert_eq!(world_units(level.obstacles[1].y), 0.060171127);
    assert_eq!(world_units(level.obstacles[2].x), 83.53985);
    assert_eq!(world_units(level.obstacles[2].y), 0.8289844);
    assert_eq!(level.obstacles[0].material.color, 0x699142);
    assert_eq!(level.lights[0], (282_233_917_440, 15_275_556_000));
    assert_eq!(level.bg_objects[0].z, -9_387_599_040);
    assert_eq!(level.bg_objects[2099].material.color, 0x045096);
}

#[test]
fn one_seed_one_level() {
    let first = Level::new(0x1234_5678, draw_real).unwrap();
    let second = Level::new(0x1234_5678, draw_real).unwrap();
    assert_eq!(first, second);
    let other = Level::new(0x1234_5679, draw_real).unwrap();
    assert_ne!(first, other);
    assert_ne!(first.obstacles[0], other.obstacles[0]);
}

#[test]
fn everything_in_the_level_is_in_its_range() {
    for seed in [0u64, 1, 0x1234_5678, u64::MAX] {
        let level = Level::new(seed, draw_real).unwrap();
        for obstacle in &level.obstacles {
            assert!(ONE <= obstacle.x && obstacle.x < 200 * ONE);
            assert!(0 <= obstacle.y && obstacle.y < ONE);
            assert!(0 <= obstacle.material.metallic && obstacle.material.metallic < ONE);
            assert!(obstacle.material.color <= 0x99_9999);
        }
        for light in &level.lights {
            assert!(ONE <= light.0 && light.0 < 200 * ONE);
            assert!(0 <= light.1 && light.1 < 10 * ONE);
        }
        for tile in &level.bg_objects {
            assert!(-2 * ONE < tile.z && tile.z <= -ONE);
            let rough = tile.material.perceptual_roughness;
            assert!(0 <= rough && rough < ONE);
        }
    }
}

#[test]
fn the_wall_is_filled_column_by_column_from_the_floor_up() {
    let level = Level::new(42, draw_real).unwrap();
    assert_eq!(LEVEL_MIN_X, -10);
    assert_eq!(LEVEL_MAX_X, 200);
    assert_eq!(WALL_HEIGHT, 10);
    for (index, tile) in level.bg_objects.iter().enumerate() {
        assert_eq!(tile.x, (index as i64 / 10 - 10) * ONE);
        assert_eq!(tile.y, (index as i64 % 10) * ONE);
    }
    assert_eq!(level.bg_objects[15].x, -9 * ONE);
    assert_eq!(level.bg_objects[15].y, 5 * ONE);
}

#[test]
fn colours_are_decimal_digits_read_as_hexadecimal() {
    let level = Level::new(0x1234_5678, draw_real).unwrap();
    let mut seen = std::collections::BTreeSet::new();
    for tile in &level.bg_objects {
        let mut color = tile.material.color;
        for _ in 0..6 {
            assert!(color % 16 <= 9);
            color /= 16;
        }
        assert_eq!(color, 0);
        seen.insert(tile.material.color);
    }
    // The codes are drawn, not handed back: the tiles have many colours.
    assert!(seen.len() > 2000);
    assert!(level.obstacles.iter().any(|o| o.material.color != 0));
}

#[test]
fn a_material_is_three_draws() {
    let mut rng = ChaCha8Rng::seed_from_u64(7);
    let material = random_material(&mut rng, &draw_real).unwrap();
    assert_eq!(
        material,
        Material { color: 0x167989, metallic: 845_591_760, perceptual_roughness: 953_056_080 }
    );
    // The same three draws, made by hand.
    let mut rng = ChaCha8Rng::seed_from_u64(7);
    let metallic: f32 = rng.gen_range(0.0..1.0);
    let roughness: f32 = rng.gen_range(0.0..1.0);
    let code: u64 = rng.gen_range(0..999_999);
    assert_eq!(world_units(material.metallic), metallic);
    assert_eq!(world_units(material.perceptual_roughness), roughness);
    assert_eq!(format!("{:06x}", material.color), format!("{:06}", code));
    // The material leaves the generator where the three draws leave it.
    let mut other = ChaCha8Rng::seed_from_u64(7);
    random_material(&mut other, &draw_real).unwrap();
    assert_eq!(rng.gen_range(0..u64::MAX), other.gen_range(0..u64::MAX));
}

#[test]
fn the_level_is_drawn_in_its_order() {
    let level = Level::new(99, draw_real).unwrap();
    let mut rng = ChaCha8Rng::seed_from_u64(99);
    for obstacle in &level.obstacles {
        let x: f32 = rng.gen_range(1.0..200.0);
        let y: f32 = rng.gen_range(0.0..1.0);
        let metallic: f32 = rng.gen_range(0.0..1.0);
        let roughness: f32 = rng.gen_range(0.0..1.0);
        let code: u64 = rng.gen_range(0..999_999);
        assert_eq!(world_units(obstacle.x), x);
        assert_eq!(world_units(obstacle.y), y);
        assert_eq!(world_units(obstacle.material.metallic), metallic);
        assert_eq!(world_units(obstacle.material.perceptual_roughness), roughness);
        assert_eq!(format!("{:06x}", obstacle.material.color), format!("{:06}", code));
    }
    for light in &level.lights {
        let x: f32 = rng.gen_range(1.0..200.0);
        let y: f32 = rng.gen_range(0.0..10.0);
        assert_eq!((world_units(light.0), world_units(light.1)), (x, y));
    }
    for tile in &level.bg_objects {
        let depth: f32 = rng.gen_range(1.0..2.0);
        let metallic: f32 = rng.gen_range(0.0..1.0);
        let roughness: f32 = rng.gen_range(0.0..1.0);
        let code: u64 = rng.gen_range(0..999_999);
        assert_eq!(world_units(tile.z), -depth);
        assert_eq!(world_units(tile.material.metallic), metallic);
        assert_eq!(world_units(tile.material.perceptual_roughness), roughness);
        assert_eq!(format!("{:06x}", tile.material.color), format!("{:06}", code));
    }
}

#[test]
fn a_draw_outside_its_range_is_refused() {
    let too_far = |_: &mut ChaCha8Rng, _: i16, high: i16| i64::from(high) * ONE;
    assert_eq!(Level::new(1, too_far), Err(CoreError::DrawOutOfRange));
    let too_near = |_: &mut ChaCha8Rng, low: i16, _: i16| i64::from(low) * ONE - 1;
    assert_eq!(Level::new(1, too_near), Err(CoreError::DrawOutOfRange));
    let mut rng = ChaCha8Rng::seed_from_u64(1);
    assert_eq!(random_material(&mut rng, &too_far), Err(CoreError::DrawOutOfRange));
}

#[test]
fn a_level_can_be_drawn_without_chance_in_the_reals() {
    let lowest = |_: &mut ChaCha8Rng, low: i16, _: i16| i64::from(low) * ONE;
    let level = Level::new(5, lowest).unwrap();
    assert_eq!(level.obstacles.len(), 40);
    assert!(level.obstacles.iter().all(|o| o.x == ONE && o.y == 0));
    assert!(level.lights.iter().all(|l| *l == (ONE, 0)));
    assert!(level.bg_objects.iter().all(|t| t.z == -ONE));
}

#[test]
fn obstacles_lights_and_tiles_from_draws() {
    assert_eq!(
        Obstacle::from_draws(ONE, 0, grey()),
        Ok(Obstacle { x: ONE, y: 0, material: grey() })
    );
    assert_eq!(
        Obstacle::from_draws(200 * ONE - 1, ONE - 1, grey()),
        Ok(Obstacle { x: 200 * ONE - 1, y: ONE - 1, material: grey() })
    );
    assert_eq!(Obstacle::from_draws(ONE - 1, 0, grey()), Err(CoreError::DrawOutOfRange));
    assert_eq!(Obstacle::from_draws(200 * ONE, 0, grey()), Err(CoreError::DrawOutOfRange));
    assert_eq!(Obstacle::from_draws(ONE, -1, grey()), Err(CoreError::DrawOutOfRange));
    assert_eq!(Obstacle::from_draws(ONE, ONE, grey()), Err(CoreError::DrawOutOfRange));

    assert_eq!(light_from_draws(ONE, 10 * ONE - 1), Ok((ONE, 10 * ONE - 1)));
    assert_eq!(light_from_draws(ONE, 10 * ONE), Err(CoreError::DrawOutOfRange));
    assert_eq!(light_from_draws(0, 0), Err(CoreError::DrawOutOfRange));
    assert_eq!(light_from_draws(200 * ONE, 0), Err(CoreError::DrawOutOfRange));

    assert_eq!(
        BgObject::from_draws(-10, 3, ONE + 5, grey()),
        Ok(BgObject { x: -10 * ONE, y: 3 * ONE, z: -ONE - 5, material: grey() })
    );
    assert_eq!(
        BgObject::from_draws(199, 9, 2 * ONE - 1, grey()),
        Ok(BgObject { x: 199 * ONE, y: 9 * ONE, z: 1 - 2 * ONE, material: grey() })
    );
    assert_eq!(BgObject::from_draws(0, 0, ONE - 1, grey()), Err(CoreError::DrawOutOfRange));
    assert_eq!(BgObject::from_draws(0, 0, 2 * ONE, grey()), Err(CoreError::DrawOutOfRange));
}

#[test]
fn six_hundred_ticks_without_input_on_the_usual_seed() {
    let level = Level::new(0x1234_5678, draw_real).unwrap();
    let mut world = World::new();
    let inputs = vec![Input { jump: false, boost: false }; 600];
    let collision = world.run(&inputs, &level.obstacles);
    // The run would come twenty world units far, but an obstacle is in the
    // way: the tick at place 206 finds the player on it.
    assert_eq!(600 * SCROLL_VELOCITY, 20 * ONE);
    assert_eq!(collision, Some(206));
    assert!(world.player.collided);
    assert!(world.camera.stopped);
    assert_eq!(world.player.position.x, PLAYER_START_X + 207 * SCROLL_VELOCITY);
    assert_eq!(world.player.position.x, 11_475_615_744);
    assert_eq!(world.player.position.y, 0);
    assert_eq!(world.camera.position_x, 207 * SCROLL_VELOCITY);
    assert_eq!(world.ticks, 600);

    // Before that tick the player advanced by two world units a second.
    let mut world = World::new();
    for tick in 1..=206 {
        world.tick(Input { jump: false, boost: false }, &level.obstacles);
        assert!(!world.player.collided);
        assert_eq!(world.player.position.x, PLAYER_START_X + tick * SCROLL_VELOCITY);
    }
}

#[test]
fn boost_held_on_the_usual_seed() {
    let level = Level::new(0x1234_5678, draw_real).unwrap();
    let mut world = World::new();
    let boost = Input { jump: false, boost: true };
    let mut ticks: i64 = 0;
    while !world.player.collided {
        let events = world.tick(boost, &level.obstacles);
        ticks += 1;
        assert_eq!(world.player.position.x, PLAYER_START_X + ticks * BOOST_VELOCITY);
        assert_eq!(world.camera.position_x, ticks * BOOST_VELOCITY);
        assert_eq!(events > 0, world.player.collided);
        assert!(ticks < 10_000);
    }
    assert_eq!(ticks, 83);
    assert_eq!(world.player.position.x, 11_576_279_040);

    let mut replay = World::new();
    assert_eq!(replay.run(&vec![boost; 600], &level.obstacles), Some(82));
    assert_eq!(replay.player, world.player);
    assert_eq!(replay.camera, world.camera);
}

#[test]
fn runs_on_seed_zero() {
    let level = Level::new(0, draw_real).unwrap();
    let mut world = World::new();
    let hit = world.run(&vec![Input { jump: false, boost: false }; 600], &level.obstacles);
    assert_eq!(hit, Some(178));
    assert_eq!(world.player.position.x, 5_838_471_168);
    let mut world = World::new();
    let hit = world.run(&vec![Input { jump: false, boost: true }; 600], &level.obstacles);
    assert_eq!(hit, Some(71));
    assert_eq!(world.player.position.x, ONE);
}
