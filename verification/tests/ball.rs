use pong::game::arena::{Ball, Paddle, Wall};
use pong::game::event::PointMarked;
use pong::game::physics::{Collider, LinearVelocity};
use pong::game::player::PlayerSide;
use pong::game::system::{
    check_ball_leaved_arena, move_ball, move_ball_with_spin, rebalance, speed_up, spin_off_paddle,
    PADDLE_SPIN, REBALANCE_GROW, REBALANCE_SHRINK,
};
use pong::math::{Transform, Vec2};
use pong::settings::Settings;

const TICK: u32 = 15_625;

fn ball_at(x: i32, y: i32) -> Transform {
    Transform { translation: Vec2::new(x, y), scale: Vec2::new(2_000, 2_000) }
}

fn walls(settings: &Settings) -> Vec<Collider> {
    vec![
        Collider { transform: Wall::top_transform(settings), paddle: false },
        Collider { transform: Wall::bottom_transform(settings), paddle: false },
    ]
}

fn walls_and_paddles(settings: &Settings, left_y: i32, right_y: i32) -> Vec<Collider> {
    let mut colliders = walls(settings);
    let mut left = Paddle::new_main_transform(settings);
    left.translation.y = left_y;
    let mut right = Paddle::new_second_transform(settings);
    right.translation.y = right_y;
    colliders.push(Collider { transform: left, paddle: true });
    colliders.push(Collider { transform: right, paddle: true });
    colliders
}

#[test]
fn constants_of_the_bounce() {
    assert_eq!(PADDLE_SPIN, 800);
    assert_eq!(REBALANCE_SHRINK, 900);
    assert_eq!(REBALANCE_GROW, 1_100);
}

#[test]
fn speed_grows_by_the_acceleration_share() {
    let settings = Settings::default();
    // 10 units per second, 5 % per second, 1/64 s: 7.8125 sub-units more
    assert_eq!(speed_up(&settings, 10_000, TICK), 10_007);
    assert_eq!(speed_up(&settings, -10_000, TICK), -10_007);
    assert_eq!(speed_up(&settings, 18_000, 1_000_000), 18_900);
    assert_eq!(speed_up(&settings, 0, TICK), 0);
    assert_eq!(speed_up(&settings, 120_000, TICK), 120_000);
    assert_eq!(speed_up(&settings, -119_999, 1_000_000), -120_000);
    let steady = Settings { ball_acceleration: 0, ..settings };
    assert_eq!(speed_up(&steady, 10_000, u32::MAX), 10_000);
}

#[test]
fn paddle_gives_four_fifths_of_the_number_drawn() {
    let settings = Settings::default();
    let mut v = LinearVelocity(Vec2::new(-20_000, 3_000));
    spin_off_paddle(&settings, &mut v, 10_000);
    assert_eq!(v.0, Vec2::new(-20_000, 8_000));
    spin_off_paddle(&settings, &mut v, -20_000);
    assert_eq!(v.0, Vec2::new(-20_000, -16_000));
    spin_off_paddle(&settings, &mut v, 0);
    assert_eq!(v.0, Vec2::new(-20_000, 0));
    spin_off_paddle(&settings, &mut v, i32::MAX);
    assert_eq!(v.0, Vec2::new(-20_000, 120_000));
    spin_off_paddle(&settings, &mut v, -7);
    assert_eq!(v.0, Vec2::new(-20_000, -5));
}

#[test]
fn steep_ball_is_rebalanced_by_a_tenth() {
    let mut v = LinearVelocity(Vec2::new(5_000, 5_000));
    rebalance(&mut v);
    assert_eq!(v.0, Vec2::new(5_500, 4_500));
    let mut v = LinearVelocity(Vec2::new(-1_000, 20_000));
    rebalance(&mut v);
    assert_eq!(v.0, Vec2::new(-1_100, 18_000));
    let mut v = LinearVelocity(Vec2::new(10_000, -5_000));
    rebalance(&mut v);
    assert_eq!(v.0, Vec2::new(10_000, -5_000));
    let mut v = LinearVelocity(Vec2::new(0, 0));
    rebalance(&mut v);
    assert_eq!(v.0, Vec2::new(0, 0));
    let mut v = LinearVelocity(Vec2::new(0, -9));
    rebalance(&mut v);
    assert_eq!(v.0, Vec2::new(0, -8));
}

#[test]
fn free_flight_moves_along_the_velocity() {
    let settings = Settings::default();
    let mut t = ball_at(100, -200);
    let mut v = LinearVelocity(Vec2::new(18_000, -9_000));
    move_ball_with_spin(&settings, &mut t, &mut v, &walls(&settings), TICK, 12_345);
    // 18 units per second for 1/64 s: 281.25 sub-units; 9: 140.625
    assert_eq!(t.translation, Vec2::new(381, -340));
    assert_eq!(t.scale, Vec2::new(2_000, 2_000));
    assert_eq!(v.0, Vec2::new(18_014, -9_007));
}

#[test]
fn ball_at_rest_stays_at_rest() {
    let settings = Settings::default();
    let mut t = ball_at(0, 0);
    let mut v = LinearVelocity(Vec2::new(0, 0));
    move_ball_with_spin(&settings, &mut t, &mut v, &walls_and_paddles(&settings, 0, 0), TICK, 77);
    assert_eq!(t, ball_at(0, 0));
    assert_eq!(v.0, Vec2::new(0, 0));
}

#[test]
fn wall_bounce_flips_the_vertical_speed_only() {
    let settings = Settings { ball_acceleration: 0, ..Settings::default() };
    // just below the top wall: half the height, less the radius, less 0.01
    let mut t = ball_at(0, 25_000 - 1_000 - 10);
    let mut v = LinearVelocity(Vec2::new(10_000, 5_000));
    move_ball_with_spin(&settings, &mut t, &mut v, &walls(&settings), TICK, 999);
    assert_eq!(v.0, Vec2::new(10_000, -5_000));
    // moved by (156, 78), then pushed down by the offset to the wall's face
    assert_eq!(t.translation, Vec2::new(156, 23_136));
}

#[test]
fn wall_bounce_with_the_usual_acceleration() {
    let settings = Settings::default();
    let mut t = ball_at(0, 23_990);
    let mut v = LinearVelocity(Vec2::new(10_000, 5_000));
    move_ball_with_spin(&settings, &mut t, &mut v, &walls(&settings), TICK, 999);
    assert_eq!(v.0, Vec2::new(10_007, -5_003));
    assert_eq!(t.translation, Vec2::new(156, 23_136));
}

#[test]
fn bottom_wall_bounce_mirrors_the_top_one() {
    let settings = Settings { ball_acceleration: 0, ..Settings::default() };
    let mut t = ball_at(0, -23_990);
    let mut v = LinearVelocity(Vec2::new(-10_000, -5_000));
    move_ball_with_spin(&settings, &mut t, &mut v, &walls(&settings), TICK, 999);
    assert_eq!(v.0, Vec2::new(-10_000, 5_000));
    assert_eq!(t.translation, Vec2::new(-156, -23_136));
}

#[test]
fn turned_ball_keeps_its_direction_in_the_next_free_tick() {
    let settings = Settings { ball_acceleration: 0, ..Settings::default() };
    let mut t = ball_at(0, 23_990);
    let mut v = LinearVelocity(Vec2::new(10_000, 5_000));
    move_ball_with_spin(&settings, &mut t, &mut v, &walls(&settings), TICK, 0);
    assert_eq!(v.0.y, -5_000);
    move_ball_with_spin(&settings, &mut t, &mut v, &walls(&settings), TICK, 0);
    assert_eq!(v.0, Vec2::new(10_000, -5_000));
    assert_eq!(t.translation, Vec2::new(312, 23_058));
}

#[test]
fn paddle_turns_the_ball_and_sets_its_vertical_speed() {
    let settings = Settings { ball_acceleration: 0, ..Settings::default() };
    // the right paddle's inner face is at 46.8; the ball flies into it
    let mut t = ball_at(45_700, 0);
    let mut v = LinearVelocity(Vec2::new(20_000, 1_000));
    let colliders = walls_and_paddles(&settings, 0, 0);
    move_ball_with_spin(&settings, &mut t, &mut v, &colliders, TICK, -10_000);
    // moved by (312, 15): center at 46012, 788 before the face: offset (-788, 0)
    assert_eq!(t.translation, Vec2::new(45_224, 15));
    assert_eq!(v.0, Vec2::new(-20_000, -8_000));
}

#[test]
fn left_paddle_turns_the_ball_to_the_right() {
    let settings = Settings { ball_acceleration: 0, ..Settings::default() };
    let mut t = ball_at(-45_700, 2_000);
    let mut v = LinearVelocity(Vec2::new(-20_000, 0));
    let colliders = walls_and_paddles(&settings, 2_000, 0);
    move_ball_with_spin(&settings, &mut t, &mut v, &colliders, TICK, 5_000);
    assert_eq!(t.translation, Vec2::new(-45_224, 2_000));
    assert_eq!(v.0, Vec2::new(20_000, 4_000));
}

#[test]
fn ball_passes_a_paddle_that_is_elsewhere() {
    let settings = Settings { ball_acceleration: 0, ..Settings::default() };
    let mut t = ball_at(45_700, 15_000);
    let mut v = LinearVelocity(Vec2::new(20_000, 0));
    let colliders = walls_and_paddles(&settings, 0, -5_000);
    move_ball_with_spin(&settings, &mut t, &mut v, &colliders, TICK, 5_000);
    assert_eq!(t.translation, Vec2::new(46_012, 15_000));
    assert_eq!(v.0, Vec2::new(20_000, 0));
}

#[test]
fn speed_never_exceeds_the_cap_over_many_paddle_bounces() {
    let settings = Settings { ball_acceleration: 1_000, ..Settings::default() };
    let mut t = ball_at(0, 0);
    let mut v = LinearVelocity(Vec2::new(18_000, 9_000));
    let mut bounces = 0;
    let mut fastest = 0;
    for _ in 0..20_000 {
        // the paddles follow the ball
        let y = t.translation.y.clamp(-20_000, 20_000);
        let colliders = walls_and_paddles(&settings, y, y);
        let before = v.0.x;
        move_ball(&settings, &mut t, &mut v, &colliders, TICK);
        if (before > 0) != (v.0.x > 0) {
            bounces += 1;
        }
        assert!(v.0.x.abs() <= settings.ball_max_speed);
        assert!(v.0.y.abs() <= settings.ball_max_speed);
        fastest = fastest.max(v.0.x.abs());
        // a ball that got past a paddle is served again
        if check_ball_leaved_arena(&settings, &mut t, &mut v).is_some() {
            v = LinearVelocity(Vec2::new(18_000, 9_000));
        }
    }
    assert!(bounces > 10);
    assert_eq!(fastest, settings.ball_max_speed);
}

#[test]
fn cap_holds_for_any_number_drawn() {
    let settings = Settings::default();
    for spin in [i32::MIN, -120_001, 0, 150_001, i32::MAX] {
        let mut t = ball_at(45_700, 0);
        let mut v = LinearVelocity(Vec2::new(120_000, 120_000));
        let colliders = walls_and_paddles(&settings, 0, 0);
        move_ball_with_spin(&settings, &mut t, &mut v, &colliders, TICK, spin);
        assert!(v.0.x.abs() <= 120_000 && v.0.y.abs() <= 120_000);
    }
}

#[test]
fn drawn_spin_is_at_most_four_fifths_of_the_horizontal_speed() {
    let settings = Settings { ball_acceleration: 0, ..Settings::default() };
    let colliders = walls_and_paddles(&settings, 0, 0);
    let mut distinct = false;
    let mut first = None;
    for _ in 0..300 {
        let mut t = ball_at(45_700, 0);
        let mut v = LinearVelocity(Vec2::new(20_000, 1_000));
        move_ball(&settings, &mut t, &mut v, &colliders, TICK);
        assert_eq!(t.translation, Vec2::new(45_224, 15));
        assert_eq!(v.0.x, -20_000);
        assert!(v.0.y.abs() <= 16_000);
        match first {
            None => first = Some(v.0.y),
            Some(y) => distinct |= y != v.0.y,
        }
    }
    assert!(distinct);
}

#[test]
fn ball_position_saturates_at_the_limit() {
    let settings = Settings { ball_acceleration: 0, ball_max_speed: 1_000_000_000, ..Settings::default() };
    let mut t = ball_at(999_999_000, 0);
    let mut v = LinearVelocity(Vec2::new(1_000_000_000, 1));
    move_ball_with_spin(&settings, &mut t, &mut v, &Vec::new(), 1_000_000, 0);
    assert_eq!(t.translation, Vec2::new(1_000_000_000, 1));
    assert_eq!(v.0, Vec2::new(1_000_000_000, 1));
}

#[test]
fn point_for_main_when_the_ball_leaves_on_the_right() {
    let settings = Settings::default();
    // one thousandth before the line
    let mut t = ball_at(50_000 - 2_000 - 1, 300);
    let mut v = LinearVelocity(Vec2::new(18_000, 0));
    assert_eq!(check_ball_leaved_arena(&settings, &mut t, &mut v), None);
    assert_eq!(t.translation, Vec2::new(47_999, 300));
    move_ball_with_spin(&settings, &mut t, &mut v, &walls(&settings), TICK, 0);
    assert_eq!(t.translation, Vec2::new(48_280, 300));
    let point = check_ball_leaved_arena(&settings, &mut t, &mut v);
    assert_eq!(point, Some(PointMarked::new(PlayerSide::Main)));
    assert_eq!(t.translation, Vec2::new(0, 0));
    assert_eq!(t.scale, Vec2::new(2_000, 2_000));
    assert_eq!(v.0, Vec2::new(0, 0));
}

#[test]
fn point_for_the_other_seat_when_the_ball_leaves_on_the_left() {
    let settings = Settings::default();
    let mut t = ball_at(-48_000, -7);
    let mut v = LinearVelocity(Vec2::new(-18_000, 100));
    let point = check_ball_leaved_arena(&settings, &mut t, &mut v);
    assert_eq!(point, Some(PointMarked { winner: PlayerSide::Other }));
    assert_eq!(t.translation, Vec2::new(0, 0));
    assert_eq!(v.0, Vec2::new(0, 0));
}

#[test]
fn the_line_itself_is_outside() {
    let settings = Settings::default();
    let mut t = ball_at(48_000, 0);
    let mut v = LinearVelocity(Vec2::new(1, 1));
    assert_eq!(
        check_ball_leaved_arena(&settings, &mut t, &mut v),
        Some(PointMarked { winner: PlayerSide::Main })
    );
    let mut t = ball_at(-47_999, 0);
    let mut v = LinearVelocity(Vec2::new(1, 1));
    assert_eq!(check_ball_leaved_arena(&settings, &mut t, &mut v), None);
    assert_eq!(t.translation, Vec2::new(-47_999, 0));
    assert_eq!(v.0, Vec2::new(1, 1));
    let mut t = ball_at(i32::MIN, 0);
    let mut v = LinearVelocity(Vec2::new(1, 1));
    assert_eq!(
        check_ball_leaved_arena(&settings, &mut t, &mut v),
        Some(PointMarked { winner: PlayerSide::Other })
    );
}

#[test]
fn ball_circle_used_for_all_colliders_is_the_one_after_the_move() {
    let settings = Settings { ball_acceleration: 0, ..Settings::default() };
    // in the corner the ball meets the top wall and the right paddle at once
    let mut t = ball_at(45_700, 24_500);
    let mut v = LinearVelocity(Vec2::new(20_000, 4_000));
    let colliders = walls_and_paddles(&settings, 0, 20_000);
    move_ball_with_spin(&settings, &mut t, &mut v, &colliders, TICK, 10_000);
    // after the move: (46012, 24562). Wall: offset (0, -438), bottom side.
    // Paddle, whose box is x 46800..48000, y 15000..25000: offset (-788, 0).
    assert_eq!(t.translation, Vec2::new(46_012 - 788, 24_562 - 438));
    assert_eq!(v.0, Vec2::new(-20_000, 8_000));
    let radius = Ball::bounding_circle(&settings, &t).radius;
    assert_eq!(radius, 1_000);
}
