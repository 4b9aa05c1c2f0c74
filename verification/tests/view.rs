use sphere_runner::game::{Input, World};
use sphere_runner::units::{add_clamped, from_whole, in_span, sub_clamped, ONE};
use sphere_runner::view::{decimal_text, fps_text, score, score_text, seed_text};

#[test]
fn the_score_is_how_far_the_player_has_come() {
    let mut world = World::new();
    assert_eq!(score(&world), -5 * ONE);
    assert_eq!(score_text(&world), "-5.00");
    world.tick(Input { jump: false, boost: false }, &vec![]);
    assert_eq!(score(&world), -5 * ONE + ONE / 30);
    assert_eq!(score_text(&world), "-4.97");
    world.run(&vec![Input { jump: true, boost: true }; 59], &vec![]);
    assert_eq!(score(&world), world.player.position.x);
    assert_eq!(score_text(&world), "-0.05");
    world.run(&vec![Input { jump: false, boost: true }; 6000], &vec![]);
    assert_eq!(score_text(&world), "499.95");
}

#[test]
fn lengths_to_two_places() {
    assert_eq!(decimal_text(0), "0.00");
    assert_eq!(decimal_text(ONE), "1.00");
    assert_eq!(decimal_text(-ONE), "-1.00");
    assert_eq!(decimal_text(ONE / 2), "0.50");
    assert_eq!(decimal_text(ONE / 100 * 7), "0.07");
    assert_eq!(decimal_text(12 * ONE + ONE / 4), "12.25");
    assert_eq!(decimal_text(1), "0.00");
    assert_eq!(decimal_text(-1), "-0.00");
    assert_eq!(decimal_text(200 * ONE - 1), "200.00");
    assert_eq!(decimal_text(i64::MAX), "1527099483.02");
    assert_eq!(decimal_text(i64::MIN), "-1527099483.02");
}

#[test]
fn halves_go_to_the_even_hundredth() {
    assert_eq!(decimal_text(ONE / 8), "0.12");
    assert_eq!(decimal_text(3 * ONE / 8), "0.38");
    assert_eq!(decimal_text(5 * ONE / 8), "0.62");
    assert_eq!(decimal_text(7 * ONE / 8), "0.88");
    assert_eq!(decimal_text(-ONE / 8), "-0.12");
    assert_eq!(decimal_text(ONE / 8 + 1), "0.13");
    assert_eq!(decimal_text(3 * ONE / 8 - 1), "0.37");
    assert_eq!(decimal_text(ONE / 40), "0.02");
    assert_eq!(decimal_text(3 * ONE / 40), "0.08");
    // Where the length is a single-precision number, the text is that of the number.
    for eighths in -40i64..=40 {
        let length = eighths * ONE / 8;
        assert_eq!(decimal_text(length), format!("{:.2}", eighths as f32 / 8.0));
    }
    for steps in (-3000i64..=3000).step_by(17) {
        let number = steps as f32 / 1024.0 + 1.0;
        let length = (f64::from(number) * ONE as f64) as i64;
        assert_eq!(decimal_text(length), format!("{:.2}", number));
    }
}

#[test]
fn the_frame_rate_when_there_is_one() {
    assert_eq!(fps_text(None), None);
    assert_eq!(fps_text(Some(60 * ONE)), Some("60.00".to_string()));
    assert_eq!(fps_text(Some(59 * ONE + ONE / 100 * 94)), Some("59.94".to_string()));
    assert_eq!(fps_text(Some(0)), Some("0.00".to_string()));
}

#[test]
fn the_seed_in_hexadecimal() {
    assert_eq!(seed_text(0x1234_5678), "Seed: 0x12345678");
    assert_eq!(seed_text(0), "Seed: 0x0");
    assert_eq!(seed_text(0xdead_beef), "Seed: 0xdeadbeef");
    assert_eq!(seed_text(u64::MAX), "Seed: 0xffffffffffffffff");
    for seed in [1u64, 15, 16, 255, 256, 0xabcdef, 1 << 63] {
        assert_eq!(seed_text(seed), format!("Seed: {:#x}", seed));
    }
}

#[test]
fn lengths_stop_at_the_ends_of_their_range() {
    assert_eq!(add_clamped(1, 2), 3);
    assert_eq!(add_clamped(-7, 2), -5);
    assert_eq!(add_clamped(i64::MAX, 1), i64::MAX);
    assert_eq!(add_clamped(i64::MAX - 1, 1), i64::MAX);
    assert_eq!(add_clamped(i64::MIN, -1), i64::MIN);
    assert_eq!(add_clamped(i64::MIN, i64::MIN), i64::MIN);
    assert_eq!(add_clamped(i64::MAX, i64::MIN), -1);
    assert_eq!(sub_clamped(1, 2), -1);
    assert_eq!(sub_clamped(i64::MIN, 1), i64::MIN);
    assert_eq!(sub_clamped(i64::MAX, -1), i64::MAX);
    assert_eq!(sub_clamped(0, i64::MIN), i64::MAX);
    assert_eq!(sub_clamped(-1, i64::MIN), i64::MAX);
    assert_eq!(sub_clamped(-2, i64::MAX), i64::MIN);
}

#[test]
fn whole_world_units() {
    assert_eq!(from_whole(0), 0);
    assert_eq!(from_whole(1), ONE);
    assert_eq!(from_whole(-10), -60_397_977_600);
    assert_eq!(from_whole(200), 1_207_959_552_000);
    assert_eq!(from_whole(i16::MAX), 32_767 * ONE);
    assert_eq!(from_whole(i16::MIN), -32_768 * ONE);
    assert!(in_span(ONE, 1, 200));
    assert!(in_span(200 * ONE - 1, 1, 200));
    assert!(!in_span(200 * ONE, 1, 200));
    assert!(!in_span(ONE - 1, 1, 200));
    assert!(in_span(-ONE, -1, 0));
    assert!(!in_span(0, 0, 0));
    assert!(!in_span(5, 3, 2));
}
