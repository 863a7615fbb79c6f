use pong::game::physics::{resolve_ball_collision, Collision, LinearVelocity};
use pong::math::{Transform, Vec2};

fn ball_at(x: i32, y: i32) -> Transform {
    Transform { translation: Vec2::new(x, y), scale: Vec2::new(2_000, 2_000) }
}

#[test]
fn side_names() {
    assert_eq!(Collision::Left.as_str(), "left");
    assert_eq!(Collision::Right.as_str(), "right");
    assert_eq!(Collision::Top.as_str(), "top");
    assert_eq!(Collision::Bottom.as_str(), "bottom");
}

#[test]
fn more_horizontal_offset_pointing_left_is_a_left_hit() {
    assert_eq!(Collision::from_penetration(Vec2::new(-500, 300)), Collision::Left);
    assert_eq!(Collision::from_penetration(Vec2::new(-500, -300)), Collision::Left);
    assert_eq!(Collision::from_penetration(Vec2::new(-1, 0)), Collision::Left);
}

#[test]
fn the_other_three_sides_match_their_offsets() {
    assert_eq!(Collision::from_penetration(Vec2::new(500, 300)), Collision::Right);
    assert_eq!(Collision::from_penetration(Vec2::new(500, -499)), Collision::Right);
    assert_eq!(Collision::from_penetration(Vec2::new(300, 500)), Collision::Top);
    assert_eq!(Collision::from_penetration(Vec2::new(-300, 500)), Collision::Top);
    assert_eq!(Collision::from_penetration(Vec2::new(300, -500)), Collision::Bottom);
    assert_eq!(Collision::from_penetration(Vec2::new(0, -1)), Collision::Bottom);
}

#[test]
fn a_tie_between_the_axes_is_a_horizontal_hit() {
    assert_eq!(Collision::from_penetration(Vec2::new(500, 500)), Collision::Right);
    assert_eq!(Collision::from_penetration(Vec2::new(500, -500)), Collision::Right);
    assert_eq!(Collision::from_penetration(Vec2::new(-500, 500)), Collision::Left);
    assert_eq!(Collision::from_penetration(Vec2::new(-500, -500)), Collision::Left);
}

#[test]
fn the_zero_offset_counts_as_left() {
    assert_eq!(Collision::from_penetration(Vec2::new(0, 0)), Collision::Left);
}

#[test]
fn classification_survives_the_smallest_integer() {
    assert_eq!(Collision::from_penetration(Vec2::new(i32::MIN, i32::MAX)), Collision::Left);
    assert_eq!(Collision::from_penetration(Vec2::new(i32::MAX, i32::MIN)), Collision::Bottom);
}

#[test]
fn a_hit_moves_the_ball_by_the_offset() {
    let mut transform = ball_at(1_000, 2_000);
    let mut velocity = LinearVelocity(Vec2::new(0, 0));
    resolve_ball_collision(Vec2::new(-30, 40), &mut transform, &mut velocity);
    assert_eq!(transform.translation, Vec2::new(970, 2_040));
    assert_eq!(transform.scale, Vec2::new(2_000, 2_000));
    assert_eq!(velocity.0, Vec2::new(0, 0));
}

#[test]
fn a_ball_moving_left_is_turned_right_on_a_right_side() {
    let mut transform = ball_at(0, 0);
    let mut velocity = LinearVelocity(Vec2::new(-7_000, 3_000));
    resolve_ball_collision(Vec2::new(900, 100), &mut transform, &mut velocity);
    assert_eq!(velocity.0, Vec2::new(7_000, 3_000));
    assert_eq!(transform.translation, Vec2::new(900, 100));
}

#[test]
fn a_ball_that_already_leaves_is_not_turned_again() {
    let mut transform = ball_at(0, 0);
    let mut velocity = LinearVelocity(Vec2::new(7_000, 3_000));
    resolve_ball_collision(Vec2::new(900, 100), &mut transform, &mut velocity);
    assert_eq!(velocity.0, Vec2::new(7_000, 3_000));
}

#[test]
fn each_side_reverses_only_the_component_that_moves_into_it() {
    // left side: a ball moving right turns left
    let mut t = ball_at(0, 0);
    let mut v = LinearVelocity(Vec2::new(5_000, -2_000));
    resolve_ball_collision(Vec2::new(-900, 0), &mut t, &mut v);
    assert_eq!(v.0, Vec2::new(-5_000, -2_000));
    // top side: a ball moving down turns up
    let mut t = ball_at(0, 0);
    let mut v = LinearVelocity(Vec2::new(5_000, -2_000));
    resolve_ball_collision(Vec2::new(0, 900), &mut t, &mut v);
    assert_eq!(v.0, Vec2::new(5_000, 2_000));
    // top side: a ball moving up stays
    let mut t = ball_at(0, 0);
    let mut v = LinearVelocity(Vec2::new(5_000, 2_000));
    resolve_ball_collision(Vec2::new(0, 900), &mut t, &mut v);
    assert_eq!(v.0, Vec2::new(5_000, 2_000));
    // bottom side: a ball moving up turns down
    let mut t = ball_at(0, 0);
    let mut v = LinearVelocity(Vec2::new(5_000, 2_000));
    resolve_ball_collision(Vec2::new(0, -900), &mut t, &mut v);
    assert_eq!(v.0, Vec2::new(5_000, -2_000));
    // bottom side: a ball moving down stays
    let mut t = ball_at(0, 0);
    let mut v = LinearVelocity(Vec2::new(5_000, -2_000));
    resolve_ball_collision(Vec2::new(0, -900), &mut t, &mut v);
    assert_eq!(v.0, Vec2::new(5_000, -2_000));
}
