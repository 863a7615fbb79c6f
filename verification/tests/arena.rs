use pong::fixed::LIMIT;
use pong::game::arena::{Arena, ArenaDirection, Ball, Paddle, PaddleDirection, Wall};
use pong::game::physics::{Collider, LinearVelocity};
use pong::math::{Transform, Vec2};
use pong::settings::Settings;

fn small_arena() -> Settings {
    Settings {
        arena_width: 801,
        arena_height: 401,
        wall_thickness: 21,
        paddle_length: 101,
        paddle_thickness: 11,
        paddle_edge_margin: 20,
        paddle_velocity: 400,
        ai_deadzone: 10,
        ball_radius: 5,
        ball_start_velocity: 180,
        ball_max_speed: 1_200,
        ball_acceleration: 50,
        countdown_seconds: 1,
    }
}

#[test]
fn standard_settings_are_valid() {
    let settings = Settings::default();
    assert!(settings.is_valid());
    assert_eq!(settings.arena_width, 100_000);
    assert_eq!(settings.arena_height, 50_000);
    assert_eq!(settings.wall_thickness, 2_000);
    assert_eq!(settings.paddle_length, 10_000);
    assert_eq!(settings.paddle_thickness, 1_200);
    assert_eq!(settings.paddle_edge_margin, 2_000);
    assert_eq!(settings.paddle_velocity, 50_000);
    assert_eq!(settings.ai_deadzone, 1_000);
    assert_eq!(settings.ball_radius, 500);
    assert_eq!(settings.ball_start_velocity, 18_000);
    assert_eq!(settings.ball_max_speed, 120_000);
    assert_eq!(settings.ball_acceleration, 50);
    assert_eq!(settings.countdown_seconds, 3);
    assert!(small_arena().is_valid());
}

#[test]
fn settings_that_cannot_be_played_are_told_apart() {
    let good = Settings::default();
    assert!(!Settings { arena_width: 0, ..good }.is_valid());
    assert!(!Settings { arena_height: -1, ..good }.is_valid());
    assert!(!Settings { arena_width: Settings::MAX_EXTENT + 1, ..good }.is_valid());
    assert!(!Settings { wall_thickness: 50_000, ..good }.is_valid());
    assert!(Settings { wall_thickness: 49_999, ..good }.is_valid());
    assert!(!Settings { paddle_length: 50_001, ..good }.is_valid());
    assert!(Settings { paddle_length: 50_000, ..good }.is_valid());
    assert!(!Settings { paddle_thickness: 0, ..good }.is_valid());
    assert!(!Settings { paddle_edge_margin: -1, ..good }.is_valid());
    assert!(!Settings { paddle_edge_margin: 48_801, ..good }.is_valid());
    assert!(!Settings { paddle_velocity: 0, ..good }.is_valid());
    assert!(!Settings { ai_deadzone: -1, ..good }.is_valid());
    assert!(!Settings { ball_radius: 0, ..good }.is_valid());
    assert!(!Settings { ball_start_velocity: 0, ..good }.is_valid());
    assert!(!Settings { ball_start_velocity: 120_001, ..good }.is_valid());
    assert!(!Settings { ball_max_speed: LIMIT + 1, ball_start_velocity: 1, ..good }.is_valid());
    assert!(!Settings { ball_acceleration: -1, ..good }.is_valid());
    assert!(Settings { ball_acceleration: 0, ..good }.is_valid());
}

#[test]
fn walls_are_one_thickness_longer_than_the_arena() {
    let settings = Settings::default();
    let top = Wall::top_transform(&settings);
    let bottom = Wall::bottom_transform(&settings);
    assert_eq!(top.translation, Vec2::new(0, 26_000));
    assert_eq!(top.scale, Vec2::new(102_000, 2_000));
    assert_eq!(bottom.translation, Vec2::new(0, -26_000));
    assert_eq!(bottom.scale, Vec2::new(102_000, 2_000));
    assert_eq!(Wall::Top.transform(&settings), top);
    assert_eq!(Wall::Bottom.transform(&settings), bottom);
}

#[test]
fn wall_faces_lie_on_the_border_of_the_arena() {
    for settings in [Settings::default(), small_arena()] {
        let top = Collider { transform: Wall::top_transform(&settings), paddle: false };
        let bottom = Collider { transform: Wall::bottom_transform(&settings), paddle: false };
        assert_eq!(top.transform.scale.x, settings.arena_width + settings.wall_thickness);
        assert_eq!(bottom.transform.scale.x, settings.arena_width + settings.wall_thickness);
        assert_eq!(top.bounding_box().min.y, settings.arena_height / 2);
        assert_eq!(bottom.bounding_box().max.y, -(settings.arena_height / 2));
        assert!(top.bounding_box().min.x <= -(settings.arena_width / 2));
        assert!(top.bounding_box().max.x >= settings.arena_width / 2);
        assert!(bottom.bounding_box().min.x <= -(settings.arena_width / 2));
        assert!(bottom.bounding_box().max.x >= settings.arena_width / 2);
    }
}

#[test]
fn strips_lie_behind_the_sides() {
    let settings = Settings::default();
    let right = Arena::right_collider(&settings);
    assert_eq!(right.min, Vec2::new(50_000, -50_000));
    assert_eq!(right.max, Vec2::new(51_000, 50_000));
    let left = Arena::left_collider(&settings);
    assert_eq!(left.min, Vec2::new(-51_000, -50_000));
    assert_eq!(left.max, Vec2::new(-50_000, 50_000));
    assert_eq!(Arena::COLLIDER_HALF_THICKNESS, 500);
}

#[test]
fn directions_invert() {
    assert_eq!(ArenaDirection::Left.inverted(), ArenaDirection::Right);
    assert_eq!(ArenaDirection::Right.inverted(), ArenaDirection::Left);
    assert_eq!(ArenaDirection::Left.inverted().inverted(), ArenaDirection::Left);
    assert_eq!(ArenaDirection::from_coin(true), ArenaDirection::Left);
    assert_eq!(ArenaDirection::from_coin(false), ArenaDirection::Right);
}

#[test]
fn paddles_start_a_margin_and_half_a_thickness_inside() {
    let settings = Settings::default();
    let main = Paddle::new_main_transform(&settings);
    let second = Paddle::new_second_transform(&settings);
    assert_eq!(main.translation, Vec2::new(-47_400, 0));
    assert_eq!(second.translation, Vec2::new(47_400, 0));
    assert_eq!(main.scale, Vec2::new(1_200, 10_000));
    assert_eq!(second.scale, Vec2::new(1_200, 10_000));
    // the outer face is the margin away from the arena's side
    let outer = Collider { transform: second, paddle: true }.bounding_box().max.x;
    assert_eq!(settings.arena_width / 2 - outer, settings.paddle_edge_margin);
}

#[test]
fn paddle_range_is_half_height_less_half_length() {
    let settings = Settings::default();
    assert_eq!(Paddle::max_y_position(&settings), 20_000);
    assert_eq!(Paddle::min_y_position(&settings), -20_000);
    let odd = small_arena();
    assert_eq!(Paddle::max_y_position(&odd), 150);
    assert_eq!(Paddle::min_y_position(&odd), -150);
    let full = Settings { paddle_length: 50_000, ..settings };
    assert_eq!(Paddle::max_y_position(&full), 0);
    assert_eq!(Paddle::min_y_position(&full), 0);
}

#[test]
fn paddle_moves_by_velocity_times_delta() {
    let settings = Settings::default();
    let mut t = Paddle::new_main_transform(&settings);
    Paddle::move_vertically(&settings, PaddleDirection::Up, &mut t, 15_625);
    assert_eq!(t.translation, Vec2::new(-47_400, 781));
    Paddle::move_vertically(&settings, PaddleDirection::Down, &mut t, 15_625);
    Paddle::move_vertically(&settings, PaddleDirection::Down, &mut t, 1_000_000);
    assert_eq!(t.translation, Vec2::new(-47_400, -50_000));
    assert_eq!(t.scale, Vec2::new(1_200, 10_000));
}

#[test]
fn paddle_move_stays_in_the_limit_of_the_arithmetic() {
    let settings = Settings { paddle_velocity: LIMIT, ..Settings::default() };
    let mut t = Transform { translation: Vec2::new(0, LIMIT - 1), scale: Vec2::new(1, 1) };
    Paddle::move_vertically(&settings, PaddleDirection::Up, &mut t, u32::MAX);
    assert_eq!(t.translation.y, LIMIT);
    Paddle::move_vertically(&settings, PaddleDirection::Down, &mut t, u32::MAX);
    assert_eq!(t.translation.y, -LIMIT);
}

#[test]
fn clamp_brings_the_paddle_back() {
    let settings = Settings::default();
    for (y, expected) in [
        (0, 0),
        (20_000, 20_000),
        (20_001, 20_000),
        (-20_000, -20_000),
        (-20_001, -20_000),
        (i32::MAX, 20_000),
        (i32::MIN, -20_000),
        (12_345, 12_345),
    ] {
        let mut t = Transform { translation: Vec2::new(-47_400, y), scale: Vec2::new(1_200, 10_000) };
        Paddle::clamp_position(&settings, &mut t);
        assert_eq!(t.translation, Vec2::new(-47_400, expected));
        assert_eq!(t.scale, Vec2::new(1_200, 10_000));
    }
}

#[test]
fn paddle_never_leaves_the_arena_however_long_it_moves_one_way() {
    let settings = Settings::default();
    for direction in [PaddleDirection::Up, PaddleDirection::Down] {
        let mut t = Paddle::new_second_transform(&settings);
        for step in 0..5_000u32 {
            Paddle::move_vertically(&settings, direction, &mut t, 15_625 + step);
            Paddle::clamp_position(&settings, &mut t);
            assert!(t.translation.y >= -20_000 && t.translation.y <= 20_000);
        }
        let end = if direction == PaddleDirection::Up { 20_000 } else { -20_000 };
        assert_eq!(t.translation.y, end);
    }
}

#[test]
fn ball_circle_is_radius_times_mean_scale() {
    let settings = Settings::default();
    assert_eq!(Ball::primitive(&settings).radius, 500);
    let t = Ball::initial_transform();
    assert_eq!(t.translation, Vec2::new(0, 0));
    assert_eq!(t.scale, Vec2::new(2_000, 2_000));
    assert_eq!(Ball::SCALE, 2_000);
    let c = Ball::bounding_circle(&settings, &t);
    assert_eq!(c.center, Vec2::new(0, 0));
    assert_eq!(c.radius, 1_000);
    let t = Transform { translation: Vec2::new(7, -9), scale: Vec2::new(1_000, 2_001) };
    let c = Ball::bounding_circle(&settings, &t);
    assert_eq!(c.center, Vec2::new(7, -9));
    assert_eq!(c.radius, 750);
    let t = Transform { translation: Vec2::new(0, 0), scale: Vec2::new(0, 0) };
    assert_eq!(Ball::bounding_circle(&settings, &t).radius, 0);
    let huge = Settings { ball_radius: LIMIT, ..settings };
    let t = Transform { translation: Vec2::new(0, 0), scale: Vec2::new(LIMIT, LIMIT) };
    assert_eq!(Ball::bounding_circle(&huge, &t).radius, LIMIT);
}

#[test]
fn serve_speed_points_to_the_given_half() {
    let settings = Settings::default();
    assert_eq!(Ball::start_velocity_x(&settings, ArenaDirection::Left), -18_000);
    assert_eq!(Ball::start_velocity_x(&settings, ArenaDirection::Right), 18_000);
    assert_eq!(
        Ball::linear_velocity(&settings, ArenaDirection::Left, 4_000),
        Vec2::new(-18_000, 4_000)
    );
    assert_eq!(
        Ball::linear_velocity(&settings, ArenaDirection::Right, -9_000),
        Vec2::new(18_000, -9_000)
    );
    // a vertical speed beyond the cap is cut
    assert_eq!(
        Ball::linear_velocity(&settings, ArenaDirection::Right, i32::MAX),
        Vec2::new(18_000, 120_000)
    );
    assert_eq!(
        Ball::linear_velocity(&settings, ArenaDirection::Left, i32::MIN),
        Vec2::new(-18_000, -120_000)
    );
}

#[test]
fn drawn_serve_stays_within_half_the_serve_speed() {
    let settings = Settings::default();
    let mut seen_other_than_lowest = false;
    let mut seen_other_than_highest = false;
    let mut seen_two_values = false;
    let mut first = None;
    for _ in 0..400 {
        let v = Ball::random_linear_velocity(&settings, ArenaDirection::Right);
        assert_eq!(v.x, 18_000);
        assert!(v.y >= -9_000 && v.y <= 9_000);
        seen_other_than_lowest |= v.y != -9_000;
        seen_other_than_highest |= v.y != 9_000;
        match first {
            None => first = Some(v.y),
            Some(y) => seen_two_values |= y != v.y,
        }
        let v = Ball::random_linear_velocity(&settings, ArenaDirection::Left);
        assert_eq!(v.x, -18_000);
        assert!(v.y >= -9_000 && v.y <= 9_000);
    }
    assert!(seen_other_than_lowest && seen_other_than_highest && seen_two_values);
}

#[test]
fn limit_cuts_each_component_at_the_cap() {
    let settings = Settings::default();
    for (v, expected) in [
        ((0, 0), (0, 0)),
        ((120_000, -120_000), (120_000, -120_000)),
        ((120_001, -120_001), (120_000, -120_000)),
        ((i32::MAX, i32::MIN), (120_000, -120_000)),
        ((-5, 130_000), (-5, 120_000)),
    ] {
        let mut velocity = LinearVelocity(Vec2::new(v.0, v.1));
        Ball::limit_velocity(&settings, &mut velocity);
        assert_eq!(velocity.0, Vec2::new(expected.0, expected.1));
    }
}

#[test]
fn reset_puts_the_ball_on_the_center_at_rest() {
    let mut t = Transform { translation: Vec2::new(48_500, -300), scale: Vec2::new(2_000, 2_000) };
    let mut v = LinearVelocity(Vec2::new(30_000, -4_000));
    Ball::reset_initial_stationary_position(&mut t, &mut v);
    assert_eq!(t.translation, Vec2::new(0, 0));
    assert_eq!(t.scale, Vec2::new(2_000, 2_000));
    assert_eq!(v.0, Vec2::new(0, 0));
}

#[test]
fn center_line_and_standstill_count_as_left() {
    let at = |x: i32| Transform { translation: Vec2::new(x, 5), scale: Vec2::new(2_000, 2_000) };
    assert_eq!(Ball::current_arena_direction(&at(1)), ArenaDirection::Right);
    assert_eq!(Ball::current_arena_direction(&at(0)), ArenaDirection::Left);
    assert_eq!(Ball::current_arena_direction(&at(-1)), ArenaDirection::Left);
    let moving = |x: i32| LinearVelocity(Vec2::new(x, 5));
    assert_eq!(Ball::moving_to_arena_direction(&moving(1)), ArenaDirection::Right);
    assert_eq!(Ball::moving_to_arena_direction(&moving(0)), ArenaDirection::Left);
    assert_eq!(Ball::moving_to_arena_direction(&moving(-1)), ArenaDirection::Left);
}
