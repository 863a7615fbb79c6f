//! The steps of a tick: the ball moves and bounces, the paddles follow their
//! players, points are found and counted, and the countdown to the serve
//! runs down.

use vstd::prelude::*;
use crate::fixed::{
    abs_i64, clamp_i64, clamped, div_toward_zero, lemma_toward_zero_bounds, magnitude, saturate,
    scale, scaled, toward_zero, travel, travel_distance, LIMIT, MICROS_PER_SECOND, UNIT,
};
use crate::game::arena::{ArenaDirection, Ball, Paddle, PaddleDirection};
use crate::game::event::{GameDataUpdated, PointMarked};
use crate::game::physics::{
    ball_collision, penetration, resolve_ball_collision, resolved, Collider, Collision,
    LinearVelocity,
};
use crate::game::player::{PlayerSide, PlayerType};
use crate::game::random::{random_bool, random_in_range};
use crate::game::resource::{GameActiveData, SecondPlayer, StartMatchTimer, TimerView};
use crate::math::{BoundingCircle, Transform, Vec2};
use crate::settings::Settings;

verus! {

/// The thousandths of the number drawn at a paddle that become the ball's
/// vertical speed.
pub const PADDLE_SPIN: i32 = 800;

/// The thousandths that are left of the vertical speed of a ball that moves
/// too steeply.
pub const REBALANCE_SHRINK: i32 = 900;

/// The thousandths to which the horizontal speed of such a ball grows.
pub const REBALANCE_GROW: i32 = 1100;

/// The speed that `speed` grows to in `micros` microseconds: larger by
/// `ball_acceleration` thousandths per second, and not beyond the cap.
pub open spec fn sped_up(settings: Settings, speed: int, micros: int) -> int {
    clamped(
        speed + toward_zero(
            speed * settings.ball_acceleration * micros,
            UNIT * MICROS_PER_SECOND,
        ),
        -settings.ball_max_speed,
        settings.ball_max_speed as int,
    )
}

/// The velocity with both components sped up.
pub open spec fn accelerated(settings: Settings, velocity: Vec2, micros: int) -> Vec2 {
    Vec2 {
        x: sped_up(settings, velocity.x as int, micros) as i32,
        y: sped_up(settings, velocity.y as int, micros) as i32,
    }
}

/// The transform of a body that moved with `velocity` for `micros`
/// microseconds.
pub open spec fn advanced(transform: Transform, velocity: Vec2, micros: int) -> Transform {
    Transform {
        translation: transform.translation.translated(
            travel(velocity.x as int, micros),
            travel(velocity.y as int, micros),
        ),
        scale: transform.scale,
    }
}

/// The velocity of a ball that left a paddle: the horizontal speed stays, the
/// vertical speed is `PADDLE_SPIN` thousandths of the number `spin`, not
/// beyond the cap.
pub open spec fn spun(settings: Settings, velocity: Vec2, spin: int) -> Vec2 {
    Vec2 {
        x: velocity.x,
        y: clamped(
            scaled(spin, PADDLE_SPIN as int),
            -settings.ball_max_speed,
            settings.ball_max_speed as int,
        ) as i32,
    }
}

/// The velocity of a ball that is kept from bouncing up and down forever: a
/// ball that is at least as fast vertically as horizontally loses a tenth of
/// its vertical speed and gains a tenth of its horizontal speed.
pub open spec fn rebalanced(velocity: Vec2) -> Vec2 {
    if magnitude(velocity.y as int) >= magnitude(velocity.x as int) {
        Vec2 {
            x: scaled(velocity.x as int, REBALANCE_GROW as int) as i32,
            y: scaled(velocity.y as int, REBALANCE_SHRINK as int) as i32,
        }
    } else {
        velocity
    }
}

/// The ball after it met one collider. `circle` is the ball's circle when the
/// tick's movement was done; where it overlaps the collider's box the ball is
/// moved and reflected, and a paddle gives it a new vertical speed.
pub open spec fn struck(
    settings: Settings,
    body: (Transform, LinearVelocity),
    circle: BoundingCircle,
    collider: Collider,
    spin: int,
) -> (Transform, LinearVelocity) {
    match penetration(circle, collider.aabb()) {
        None => body,
        Some(offset) => {
            let hit = resolved(offset, body.0, body.1);
            if collider.paddle {
                (hit.0, LinearVelocity(spun(settings, hit.1.0, spin)))
            } else {
                hit
            }
        },
    }
}

/// The ball after it met each of `colliders` in turn.
pub open spec fn struck_by_all(
    settings: Settings,
    body: (Transform, LinearVelocity),
    circle: BoundingCircle,
    colliders: Seq<Collider>,
    spin: int,
) -> (Transform, LinearVelocity)
    decreases colliders.len(),
{
    if colliders.len() == 0 {
        body
    } else {
        struck(
            settings,
            struck_by_all(settings, body, circle, colliders.drop_last(), spin),
            circle,
            colliders.last(),
            spin,
        )
    }
}

/// The circle of the ball once the tick's movement is done.
pub open spec fn circle_after_advance(
    settings: Settings,
    transform: Transform,
    velocity: Vec2,
    micros: int,
) -> BoundingCircle {
    BoundingCircle {
        center: advanced(transform, velocity, micros).translation,
        radius: Ball::radius(settings, transform.scale) as i32,
    }
}

/// Whether the ball touches none of `colliders` once the tick's movement is
/// done.
pub open spec fn flies_free(
    settings: Settings,
    transform: Transform,
    velocity: Vec2,
    colliders: Seq<Collider>,
    micros: int,
) -> bool {
    forall|i: int|
        0 <= i < colliders.len() ==> penetration(
            circle_after_advance(settings, transform, velocity, micros),
            #[trigger] colliders[i].aabb(),
        ) is None
}

/// The ball after one tick of `micros` microseconds: it moves with its
/// velocity, gets faster, meets the colliders in turn, and is kept from
/// bouncing too steeply and from exceeding the cap. `spin` is the number
/// drawn for the paddles.
pub open spec fn moved_ball(
    settings: Settings,
    transform: Transform,
    velocity: LinearVelocity,
    colliders: Seq<Collider>,
    micros: int,
    spin: int,
) -> (Transform, LinearVelocity) {
    let body = struck_by_all(
        settings,
        (
            advanced(transform, velocity.0, micros),
            LinearVelocity(accelerated(settings, velocity.0, micros)),
        ),
        circle_after_advance(settings, transform, velocity.0, micros),
        colliders,
        spin,
    );
    (body.0, LinearVelocity(Ball::limited(settings, rebalanced(body.1.0))))
}

/// The speed that `speed` grows to in `delta` microseconds.
pub fn speed_up(settings: &Settings, speed: i32, delta: u32) -> (faster: i32)
    requires
        settings.wf(),
        -LIMIT <= speed <= LIMIT,
    ensures
        faster == sped_up(*settings, speed as int, delta as int),
        -settings.ball_max_speed <= faster <= settings.ball_max_speed,
{
    let v: i128 = speed as i128;
    let a: i128 = settings.ball_acceleration as i128;
    let t: i128 = delta as i128;
    assert(-1_000_000_000_000_000_000 <= v * a <= 1_000_000_000_000_000_000) by (nonlinear_arith)
        requires
            -1_000_000_000 <= v <= 1_000_000_000,
            0 <= a <= 1_000_000_000,
    ;
    let va: i128 = v * a;
    assert(-5_000_000_000_000_000_000_000_000_000 <= va * t
        <= 5_000_000_000_000_000_000_000_000_000) by (nonlinear_arith)
        requires
            -1_000_000_000_000_000_000 <= va <= 1_000_000_000_000_000_000,
            0 <= t <= 5_000_000_000,
    ;
    let gain = div_toward_zero(va * t, UNIT as i128 * MICROS_PER_SECOND as i128);
    proof {
        lemma_toward_zero_bounds(va * t, UNIT * MICROS_PER_SECOND);
    }
    let max = settings.ball_max_speed as i128;
    let sum = v + gain;
    if sum < -max {
        -settings.ball_max_speed
    } else if sum > max {
        settings.ball_max_speed
    } else {
        sum as i32
    }
}

/// The velocity after a paddle hit with the number `spin`.
pub fn spin_off_paddle(settings: &Settings, velocity: &mut LinearVelocity, spin: i32)
    requires
        settings.wf(),
    ensures
        final(velocity).0 == spun(*settings, old(velocity).0, spin as int),
        -settings.ball_max_speed <= final(velocity).0.y <= settings.ball_max_speed,
{
    let max = settings.ball_max_speed as i64;
    velocity.0.y = clamp_i64(scale(spin, PADDLE_SPIN), -max, max) as i32;
}

/// Keeps the ball from bouncing up and down forever.
pub fn rebalance(velocity: &mut LinearVelocity)
    requires
        old(velocity).0.wf(),
    ensures
        final(velocity).0 == rebalanced(old(velocity).0),
{
    if abs_i64(velocity.0.y as i64) >= abs_i64(velocity.0.x as i64) {
        proof {
            lemma_toward_zero_bounds(velocity.0.x * REBALANCE_GROW, UNIT as int);
            lemma_toward_zero_bounds(velocity.0.y * REBALANCE_SHRINK, UNIT as int);
        }
        let x = scale(velocity.0.x, REBALANCE_GROW);
        let y = scale(velocity.0.y, REBALANCE_SHRINK);
        velocity.0.x = x as i32;
        velocity.0.y = y as i32;
    }
}

/// Moves the ball for one tick of `delta` microseconds, with `spin` as the
/// number drawn for the paddles.
pub fn move_ball_with_spin(
    settings: &Settings,
    transform: &mut Transform,
    velocity: &mut LinearVelocity,
    colliders: &Vec<Collider>,
    delta: u32,
    spin: i32,
)
    requires
        settings.wf(),
        old(transform).wf(),
        old(velocity).0.wf(),
        forall|i: int| 0 <= i < colliders.len() ==> (#[trigger] colliders[i]).transform.wf(),
    ensures
        (*final(transform), *final(velocity)) == moved_ball(
            *settings,
            *old(transform),
            *old(velocity),
            colliders@,
            delta as int,
            spin as int,
        ),
        Ball::within_cap(*settings, final(velocity).0),
        final(transform).wf(),
{
    transform.translation = Vec2 {
        x: saturate(transform.translation.x as i64 + travel_distance(velocity.0.x, delta)),
        y: saturate(transform.translation.y as i64 + travel_distance(velocity.0.y, delta)),
    };
    velocity.0 = Vec2 {
        x: speed_up(settings, velocity.0.x, delta),
        y: speed_up(settings, velocity.0.y, delta),
    };

    let bounding_ball = Ball::bounding_circle(settings, transform);
    let ghost start = (*transform, *velocity);

    let mut i: usize = 0;
    while i < colliders.len()
        invariant
            0 <= i <= colliders.len(),
            settings.wf(),
            bounding_ball.wf(),
            forall|k: int| 0 <= k < colliders.len() ==> (#[trigger] colliders[k]).transform.wf(),
            (*transform, *velocity) == struck_by_all(
                *settings,
                start,
                bounding_ball,
                colliders@.take(i as int),
                spin as int,
            ),
            velocity.0.wf(),
            transform.translation.wf(),
            transform.scale == start.0.scale,
        decreases colliders.len() - i,
    {
        proof {
            assert(colliders@.take(i + 1).drop_last() == colliders@.take(i as int));
            assert(colliders@.take(i + 1).last() == colliders@[i as int]);
        }
        let bounding_box = colliders[i].bounding_box();
        match ball_collision(&bounding_ball, &bounding_box) {
            None => {},
            Some(offset) => {
                resolve_ball_collision(offset, transform, velocity);
                if colliders[i].paddle {
                    spin_off_paddle(settings, velocity, spin);
                }
            },
        }
        i += 1;
    }
    proof {
        assert(colliders@.take(colliders.len() as int) == colliders@);
    }

    rebalance(velocity);
    Ball::limit_velocity(settings, velocity);
}

/// Moves the ball for one tick of `delta` microseconds. The number for the
/// paddles is drawn from the range that the ball's horizontal speed spans,
/// both ways.
pub fn move_ball(
    settings: &Settings,
    transform: &mut Transform,
    velocity: &mut LinearVelocity,
    colliders: &Vec<Collider>,
    delta: u32,
)
    requires
        settings.wf(),
        old(transform).wf(),
        old(velocity).0.wf(),
        forall|i: int| 0 <= i < colliders.len() ==> (#[trigger] colliders[i]).transform.wf(),
    ensures
        exists|spin: int|
            magnitude(spin) <= magnitude(sped_up(*settings, old(velocity).0.x as int, delta as int))
                && (*final(transform), *final(velocity)) == #[trigger] moved_ball(
                *settings,
                *old(transform),
                *old(velocity),
                colliders@,
                delta as int,
                spin,
            ),
        Ball::within_cap(*settings, final(velocity).0),
        final(transform).wf(),
{
    let fastest = speed_up(settings, velocity.0.x, delta);
    let reach = if fastest < 0 { -fastest } else { fastest };
    let spin = random_in_range(-reach, reach);
    move_ball_with_spin(settings, transform, velocity, colliders, delta, spin);
}

/// The height of a player's paddle after a tick: moved up if `up` is held,
/// moved down if `down` is held (both leave it where it was, short of the
/// limit of the arithmetic), and brought back into the arena.
pub open spec fn steered(settings: Settings, y: int, up: bool, down: bool, micros: int) -> int {
    let raised = if up {
        Paddle::moved(settings, PaddleDirection::Up, y, micros)
    } else {
        y
    };
    let lowered = if down {
        Paddle::moved(settings, PaddleDirection::Down, raised, micros)
    } else {
        raised
    };
    Paddle::kept(settings, lowered)
}

/// Moves a player's paddle for one tick of `delta` microseconds. `up` and
/// `down` say whether the player holds the key or button for that way.
pub fn move_paddle_by_player(
    settings: &Settings,
    transform: &mut Transform,
    up: bool,
    down: bool,
    delta: u32,
)
    requires
        settings.wf(),
    ensures
        final(transform).translation.y == steered(
            *settings,
            old(transform).translation.y as int,
            up,
            down,
            delta as int,
        ),
        Paddle::in_range(*settings, final(transform).translation.y as int),
        final(transform).translation.x == old(transform).translation.x,
        final(transform).scale == old(transform).scale,
{
    if up {
        Paddle::move_vertically(settings, PaddleDirection::Up, transform, delta);
    }
    if down {
        Paddle::move_vertically(settings, PaddleDirection::Down, transform, delta);
    }
    Paddle::clamp_position(settings, transform);
}

/// Whether the computer lets its paddle rest: the ball is in the left half
/// or on the center line, or does not move to the right.
pub open spec fn ai_rests(ball: Vec2, velocity: Vec2) -> bool {
    Ball::half_of(ball.x as int) == ArenaDirection::Left || Ball::half_of(velocity.x as int)
        == ArenaDirection::Left
}

/// How far the ball is from the arena's right side.
pub open spec fn distance_to_right_side(settings: Settings, ball: Vec2) -> int {
    settings.arena_width / 2 - ball.x
}

/// Whether the ray from the ball along its velocity meets the strip behind
/// the arena's right side on the face that lies on that side: the ball has
/// not passed the side, the ray reaches the side at a height that the strip
/// covers, and the way there is no longer than the arena is wide.
pub open spec fn ray_meets_right_side(settings: Settings, ball: Vec2, velocity: Vec2) -> bool {
    let reach = distance_to_right_side(settings, ball);
    &&& velocity.x > 0
    &&& reach >= 0
    &&& (-settings.arena_height - ball.y) * velocity.x <= velocity.y * reach
    &&& velocity.y * reach <= (settings.arena_height - ball.y) * velocity.x
    &&& reach * reach * (velocity.x * velocity.x + velocity.y * velocity.y)
        <= settings.arena_width * settings.arena_width * (velocity.x * velocity.x)
}

/// The height at which the ball will cross the arena's right side if nothing
/// stops it: as far above or below the ball as the velocity's slope makes of
/// the distance to the side, rounded toward the ball's height.
pub open spec fn predicted_crossing(settings: Settings, ball: Vec2, velocity: Vec2) -> int {
    ball.y + toward_zero(
        velocity.y * distance_to_right_side(settings, ball),
        velocity.x as int,
    )
}

/// The height that the computer steers its paddle to, if the ball comes its
/// way and its ray meets the right side.
pub open spec fn ai_target(settings: Settings, ball: Vec2, velocity: Vec2) -> Option<int> {
    if !ai_rests(ball, velocity) && ray_meets_right_side(settings, ball, velocity) {
        Some(predicted_crossing(settings, ball, velocity))
    } else {
        None
    }
}

/// The height of the computer's paddle after a tick. It rests while the ball
/// is not coming. Without a target it is only brought back into the arena.
/// Closer to the target than the deadzone it stays where it is; else it
/// makes one move toward the target and is brought back into the arena.
pub open spec fn ai_steered(
    settings: Settings,
    y: int,
    ball: Vec2,
    velocity: Vec2,
    micros: int,
) -> int {
    if ai_rests(ball, velocity) {
        y
    } else {
        match ai_target(settings, ball, velocity) {
            None => Paddle::kept(settings, y),
            Some(target) => if magnitude(target - y) < settings.ai_deadzone {
                y
            } else if target > y {
                Paddle::kept(settings, Paddle::moved(settings, PaddleDirection::Up, y, micros))
            } else if target < y {
                Paddle::kept(settings, Paddle::moved(settings, PaddleDirection::Down, y, micros))
            } else {
                Paddle::kept(settings, y)
            },
        }
    }
}

/// The height that the computer steers its paddle to, if there is one.
pub fn predict_crossing(
    settings: &Settings,
    ball: &Transform,
    ball_velocity: &LinearVelocity,
) -> (target: Option<i32>)
    requires
        settings.wf(),
        ball.translation.wf(),
        ball_velocity.0.wf(),
    ensures
        target is Some <==> ai_target(*settings, ball.translation, ball_velocity.0) is Some,
        target matches Some(y) ==> ai_target(*settings, ball.translation, ball_velocity.0) == Some(
            y as int,
        ) && -settings.arena_height <= y <= settings.arena_height,
{
    if Ball::current_arena_direction(ball) == ArenaDirection::Left
        || Ball::moving_to_arena_direction(ball_velocity) == ArenaDirection::Left {
        return None;
    }
    let reach: i128 = (settings.arena_width / 2) as i128 - ball.translation.x as i128;
    if reach < 0 {
        return None;
    }
    let vx: i128 = ball_velocity.0.x as i128;
    let vy: i128 = ball_velocity.0.y as i128;
    let by: i128 = ball.translation.y as i128;
    let height: i128 = settings.arena_height as i128;
    let width: i128 = settings.arena_width as i128;

    assert(-1_000_000_000_000_000_000 <= vy * reach <= 1_000_000_000_000_000_000)
        by (nonlinear_arith)
        requires
            -1_000_000_000 <= vy <= 1_000_000_000,
            0 <= reach <= 1_000_000_000,
    ;
    assert(-2_000_000_000_000_000_000 <= (-height - by) * vx <= 2_000_000_000_000_000_000
        && -2_000_000_000_000_000_000 <= (height - by) * vx <= 2_000_000_000_000_000_000)
        by (nonlinear_arith)
        requires
            0 < vx <= 1_000_000_000,
            -1_000_000_000 <= by <= 1_000_000_000,
            0 < height <= 1_000_000_000,
    ;
    let rise = vy * reach;
    if !((-height - by) * vx <= rise && rise <= (height - by) * vx) {
        return None;
    }
    assert(0 <= reach * reach <= 1_000_000_000_000_000_000 && 0 <= vx * vx
        <= 1_000_000_000_000_000_000 && 0 <= vy * vy <= 1_000_000_000_000_000_000 && 0 <= width
        * width <= 1_000_000_000_000_000_000) by (nonlinear_arith)
        requires
            0 <= reach <= 1_000_000_000,
            0 < vx <= 1_000_000_000,
            -1_000_000_000 <= vy <= 1_000_000_000,
            0 < width <= 1_000_000_000,
    ;
    let reach_squared = reach * reach;
    let speed_squared = vx * vx + vy * vy;
    let width_squared = width * width;
    let vx_squared = vx * vx;
    assert(0 <= reach_squared * speed_squared <= 2_000_000_000_000_000_000_000_000_000_000_000_000
        && 0 <= width_squared * vx_squared <= 1_000_000_000_000_000_000_000_000_000_000_000_000)
        by (nonlinear_arith)
        requires
            0 <= reach_squared <= 1_000_000_000_000_000_000,
            0 <= speed_squared <= 2_000_000_000_000_000_000,
            0 <= width_squared <= 1_000_000_000_000_000_000,
            0 <= vx_squared <= 1_000_000_000_000_000_000,
    ;
    if reach_squared * speed_squared > width_squared * vx_squared {
        return None;
    }
    let climb = div_toward_zero(rise, vx);
    proof {
        lemma_toward_zero_bounds(rise as int, vx as int);
        lemma_crossing_is_in_strip(by as int, height as int, rise as int, vx as int);
    }
    Some((by + climb) as i32)
}

/// A ray that meets the strip's face meets it, after rounding, still at a
/// height that the strip covers.
proof fn lemma_crossing_is_in_strip(by: int, height: int, rise: int, vx: int)
    requires
        vx > 0,
        (-height - by) * vx <= rise <= (height - by) * vx,
    ensures
        -height <= by + toward_zero(rise, vx) <= height,
{
    lemma_toward_zero_bounds(rise, vx);
    let climb = toward_zero(rise, vx);
    if rise >= 0 {
        assert(climb <= height - by) by (nonlinear_arith)
            requires
                vx > 0,
                climb * vx <= rise,
                rise <= (height - by) * vx,
        ;
        assert(-height - by <= climb) by (nonlinear_arith)
            requires
                vx > 0,
                rise < (climb + 1) * vx,
                (-height - by) * vx <= rise,
        ;
    } else {
        assert(climb <= height - by) by (nonlinear_arith)
            requires
                vx > 0,
                (climb - 1) * vx < rise,
                rise <= (height - by) * vx,
        ;
        assert(-height - by <= climb) by (nonlinear_arith)
            requires
                vx > 0,
                rise <= climb * vx,
                (-height - by) * vx <= rise,
        ;
    }
}

/// Moves the computer's paddle for one tick of `delta` microseconds toward
/// the height at which it expects the ball.
pub fn intelligent_paddle_ai_movement(
    settings: &Settings,
    paddle: &mut Transform,
    ball: &Transform,
    ball_velocity: &LinearVelocity,
    delta: u32,
)
    requires
        settings.wf(),
        ball.translation.wf(),
        ball_velocity.0.wf(),
    ensures
        final(paddle).translation.y == ai_steered(
            *settings,
            old(paddle).translation.y as int,
            ball.translation,
            ball_velocity.0,
            delta as int,
        ),
        ai_rests(ball.translation, ball_velocity.0) ==> *final(paddle) == *old(paddle),
        final(paddle).translation.x == old(paddle).translation.x,
        final(paddle).scale == old(paddle).scale,
{
    if Ball::current_arena_direction(ball) == ArenaDirection::Left
        || Ball::moving_to_arena_direction(ball_velocity) == ArenaDirection::Left {
        return ;
    }
    match predict_crossing(settings, ball, ball_velocity) {
        Some(final_ball_position) => {
            let distance = abs_i64(final_ball_position as i64 - paddle.translation.y as i64);
            if distance < settings.ai_deadzone as i64 {
                return ;
            }
            if final_ball_position > paddle.translation.y {
                Paddle::move_vertically(settings, PaddleDirection::Up, paddle, delta);
            } else if final_ball_position < paddle.translation.y {
                Paddle::move_vertically(settings, PaddleDirection::Down, paddle, delta);
            }
        },
        None => {},
    }
    Paddle::clamp_position(settings, paddle);
}

/// The share, in thousandths, of a tick for which the simple computer player
/// moves: the ball's vertical speed over the paddle's distance from the
/// ball's height, no less than seven tenths and no more than the whole.
pub open spec fn smoothing(velocity: Vec2, distance: int) -> int {
    clamped(magnitude(velocity.y as int) * UNIT / distance, 700, 1000)
}

/// The height of the paddle of the simple computer player after a tick. It
/// rests while the ball is not coming or is closer in height than the
/// deadzone; else it moves toward the ball's height, for the share of the
/// tick that `smoothing` gives, and is brought back into the arena.
pub open spec fn simply_steered(
    settings: Settings,
    y: int,
    ball: Vec2,
    velocity: Vec2,
    micros: int,
) -> int {
    let distance = magnitude(ball.y - y);
    if ai_rests(ball, velocity) || distance < settings.ai_deadzone {
        y
    } else if distance == 0 {
        Paddle::kept(settings, y)
    } else {
        let share = micros * smoothing(velocity, distance) / (UNIT as int);
        if ball.y > y {
            Paddle::kept(settings, Paddle::moved(settings, PaddleDirection::Up, y, share))
        } else {
            Paddle::kept(settings, Paddle::moved(settings, PaddleDirection::Down, y, share))
        }
    }
}

/// Moves the computer's paddle for one tick of `delta` microseconds toward
/// the height at which the ball is now.
pub fn simple_paddle_ai_movement(
    settings: &Settings,
    paddle: &mut Transform,
    ball: &Transform,
    ball_velocity: &LinearVelocity,
    delta: u32,
)
    requires
        settings.wf(),
        ball_velocity.0.wf(),
    ensures
        final(paddle).translation.y == simply_steered(
            *settings,
            old(paddle).translation.y as int,
            ball.translation,
            ball_velocity.0,
            delta as int,
        ),
        ai_rests(ball.translation, ball_velocity.0) ==> *final(paddle) == *old(paddle),
        final(paddle).translation.x == old(paddle).translation.x,
        final(paddle).scale == old(paddle).scale,
{
    if Ball::current_arena_direction(ball) == ArenaDirection::Left
        || Ball::moving_to_arena_direction(ball_velocity) == ArenaDirection::Left {
        return ;
    }
    let diff = abs_i64(ball.translation.y as i64 - paddle.translation.y as i64);
    if diff < settings.ai_deadzone as i64 {
        return ;
    }
    if diff > 0 {
        let speed = abs_i64(ball_velocity.0.y as i64);
        assert(0 <= speed * UNIT <= 1_000_000_000_000) by (nonlinear_arith)
            requires
                0 <= speed <= 1_000_000_000,
                UNIT == 1000,
        ;
        let smooth = clamp_i64(speed * UNIT as i64 / diff, 700, 1000);
        assert(0 <= (delta as i64) * smooth <= 5_000_000_000_000) by (nonlinear_arith)
            requires
                0 <= delta as i64 <= 5_000_000_000,
                700 <= smooth <= 1000,
        ;
        let share_wide: i64 = (delta as i64) * smooth / (UNIT as i64);
        assert(share_wide <= delta) by (nonlinear_arith)
            requires
                share_wide == (delta as i64) * smooth / 1000,
                0 <= delta,
                700 <= smooth <= 1000,
        ;
        let share = share_wide as u32;
        if ball.translation.y > paddle.translation.y {
            Paddle::move_vertically(settings, PaddleDirection::Up, paddle, share);
        } else if ball.translation.y < paddle.translation.y {
            Paddle::move_vertically(settings, PaddleDirection::Down, paddle, share);
        }
    }
    Paddle::clamp_position(settings, paddle);
}

/// Moves the computer's paddle for one tick of `delta` microseconds.
pub fn move_paddle_by_ai(
    settings: &Settings,
    ball_transform: &Transform,
    ball_velocity: &LinearVelocity,
    paddle_transform: &mut Transform,
    delta: u32,
)
    requires
        settings.wf(),
        ball_transform.translation.wf(),
        ball_velocity.0.wf(),
    ensures
        final(paddle_transform).translation.y == ai_steered(
            *settings,
            old(paddle_transform).translation.y as int,
            ball_transform.translation,
            ball_velocity.0,
            delta as int,
        ),
        ai_rests(ball_transform.translation, ball_velocity.0) ==> *final(paddle_transform)
            == *old(paddle_transform),
        final(paddle_transform).translation.x == old(paddle_transform).translation.x,
        final(paddle_transform).scale == old(paddle_transform).scale,
{
    intelligent_paddle_ai_movement(
        settings,
        paddle_transform,
        ball_transform,
        ball_velocity,
        delta,
    );
}

/// How far from the center line the ball leaves the arena: half the arena's
/// width less the thickness of a wall.
pub open spec fn goal_line(settings: Settings) -> int {
    settings.arena_width / 2 - settings.wall_thickness
}

/// Whether a ball at `x` has left the arena.
pub open spec fn has_left_arena(settings: Settings, x: int) -> bool {
    goal_line(settings) <= magnitude(x)
}

/// Who scores when the ball leaves the arena at `x`: the right seat when it
/// leaves on the left, the left seat when it leaves on the right.
pub open spec fn scorer(x: int) -> PlayerSide {
    if x < 0 {
        PlayerSide::Other
    } else {
        PlayerSide::Main
    }
}

/// Finds out whether the ball has left the arena. If it has, the point goes
/// to the seat on the other side, and the ball is put back on the center
/// and stopped.
pub fn check_ball_leaved_arena(
    settings: &Settings,
    transform: &mut Transform,
    velocity: &mut LinearVelocity,
) -> (point: Option<PointMarked>)
    requires
        settings.wf(),
    ensures
        final(transform).scale == old(transform).scale,
        has_left_arena(*settings, old(transform).translation.x as int) ==> {
            &&& point == Some(PointMarked { winner: scorer(old(transform).translation.x as int) })
            &&& final(transform).translation == (Vec2 { x: 0, y: 0 })
            &&& final(velocity).0 == (Vec2 { x: 0, y: 0 })
        },
        !has_left_arena(*settings, old(transform).translation.x as int) ==> {
            &&& point is None
            &&& *final(transform) == *old(transform)
            &&& *final(velocity) == *old(velocity)
        },
{
    let distance = abs_i64(transform.translation.x as i64);
    if (settings.arena_width / 2 - settings.wall_thickness) as i64 <= distance {
        let winner_side = if transform.translation.x < 0 {
            PlayerSide::Other
        } else {
            PlayerSide::Main
        };
        Ball::reset_initial_stationary_position(transform, velocity);
        Some(PointMarked::new(winner_side))
    } else {
        None
    }
}

/// How many of `events` are points of the seat `side`.
pub open spec fn points_for(events: Seq<PointMarked>, side: PlayerSide) -> nat
    decreases events.len(),
{
    if events.len() == 0 {
        0
    } else {
        points_for(events.drop_last(), side) + if events.last().winner == side {
            1nat
        } else {
            0nat
        }
    }
}

/// A part of the events holds no more points than all of them.
proof fn lemma_points_for_prefix(events: Seq<PointMarked>, count: int, side: PlayerSide)
    requires
        0 <= count <= events.len(),
    ensures
        points_for(events.take(count), side) <= points_for(events, side),
    decreases events.len() - count,
{
    if count == events.len() {
        assert(events.take(count) == events);
    } else {
        lemma_points_for_prefix(events, count + 1, side);
        assert(events.take(count + 1).drop_last() == events.take(count));
    }
}

/// Counts the points that `point_events` tell of, each for the player who
/// holds the winning seat, and answers each with a notice that the score
/// changed.
pub fn register_score_point(
    second_player: &SecondPlayer,
    game_data: &mut GameActiveData,
    point_events: &Vec<PointMarked>,
) -> (updates: Vec<GameDataUpdated>)
    requires
        old(game_data).points(PlayerSide::Main) + points_for(point_events@, PlayerSide::Main)
            <= u8::MAX,
        old(game_data).points(PlayerSide::Other) + points_for(point_events@, PlayerSide::Other)
            <= u8::MAX,
    ensures
        updates.len() == point_events.len(),
        final(game_data).points(PlayerSide::Main) == old(game_data).points(PlayerSide::Main)
            + points_for(point_events@, PlayerSide::Main),
        final(game_data).points(PlayerSide::Other) == old(game_data).points(PlayerSide::Other)
            + points_for(point_events@, PlayerSide::Other),
        final(game_data).winner() == (if point_events.len() == 0 {
            old(game_data).winner()
        } else {
            Some(point_events@.last().winner.player(second_player.opponent))
        }),
{
    let mut updates: Vec<GameDataUpdated> = Vec::new();
    let mut i: usize = 0;
    while i < point_events.len()
        invariant
            0 <= i <= point_events.len(),
            updates.len() == i,
            old(game_data).points(PlayerSide::Main) + points_for(point_events@, PlayerSide::Main)
                <= u8::MAX,
            old(game_data).points(PlayerSide::Other) + points_for(point_events@, PlayerSide::Other)
                <= u8::MAX,
            game_data.points(PlayerSide::Main) == old(game_data).points(PlayerSide::Main)
                + points_for(point_events@.take(i as int), PlayerSide::Main),
            game_data.points(PlayerSide::Other) == old(game_data).points(PlayerSide::Other)
                + points_for(point_events@.take(i as int), PlayerSide::Other),
            game_data.winner() == (if i == 0 {
                old(game_data).winner()
            } else {
                Some(point_events@[i - 1].winner.player(second_player.opponent))
            }),
        decreases point_events.len() - i,
    {
        let player = point_events[i].winner.to_player_type(second_player.opponent);
        proof {
            let seat = GameActiveData::seat(player);
            assert(seat == point_events@[i as int].winner);
            assert(point_events@.take(i + 1).drop_last() == point_events@.take(i as int));
            assert(point_events@.take(i + 1).last() == point_events@[i as int]);
            lemma_points_for_prefix(point_events@, i + 1, seat);
            assert(points_for(point_events@.take(i + 1), seat) == points_for(
                point_events@.take(i as int),
                seat,
            ) + 1);
        }
        let ghost before = *game_data;
        game_data.register_point(player);
        proof {
            let seat = GameActiveData::seat(player);
            let other = if seat == PlayerSide::Main {
                PlayerSide::Other
            } else {
                PlayerSide::Main
            };
            assert(game_data.points(other) == before.points(other));
            assert(points_for(point_events@.take(i + 1), other) == points_for(
                point_events@.take(i as int),
                other,
            ));
        }
        updates.push(GameDataUpdated);
        i += 1;
    }
    proof {
        assert(point_events@.take(point_events.len() as int) == point_events@);
    }
    updates
}

/// Forgets the score and the last winner.
pub fn reset_game_data(game_data: &mut GameActiveData)
    ensures
        final(game_data).is_fresh(),
{
    *game_data = GameActiveData::default();
}

/// Begins the countdown to the serve anew.
pub fn init_match(settings: &Settings, match_timer: &mut Option<StartMatchTimer>)
    ensures
        *final(match_timer) matches Some(timer) && timer.0@ == (TimerView {
            duration: settings.countdown_seconds as nat * 1_000_000,
            elapsed: 0,
            finished: false,
            just_finished: false,
        }),
{
    *match_timer = Some(StartMatchTimer::with_seconds(settings.countdown_seconds));
}

/// Where the next ball is served to: the half of the player who scored last
/// or, before the first point, the half that the coin picks.
pub open spec fn serve_direction(last_winner: Option<PlayerType>, heads: bool) -> ArenaDirection {
    match last_winner {
        Some(player) => player.side_of_arena(),
        None => ArenaDirection::of_coin(heads),
    }
}

/// Where the next ball is served to, with the coin given.
pub fn next_ball_direction_with(last_winner: Option<PlayerType>, heads: bool) -> (direction:
    ArenaDirection)
    ensures
        direction == serve_direction(last_winner, heads),
{
    match last_winner {
        Some(player) => player.arena_direction(),
        None => ArenaDirection::from_coin(heads),
    }
}

/// Where the next ball is served to. The coin is tossed only before the
/// first point.
pub fn next_ball_direction(last_winner: Option<PlayerType>) -> (direction: ArenaDirection)
    ensures
        last_winner matches Some(player) ==> direction == player.side_of_arena(),
        exists|heads: bool| direction == #[trigger] serve_direction(last_winner, heads),
{
    match last_winner {
        Some(player) => {
            assert(player.side_of_arena() == serve_direction(last_winner, true));
            player.arena_direction()
        },
        None => {
            let heads = random_bool();
            assert(ArenaDirection::of_coin(heads) == serve_direction(last_winner, heads));
            ArenaDirection::from_coin(heads)
        },
    }
}

/// Lets `delta` microseconds of the countdown pass, if there is one, and
/// takes it away when it has run down. Says whether that happened, which is
/// when the ball is to be served.
pub fn run_countdown(match_timer: &mut Option<StartMatchTimer>, delta: u32) -> (expired: bool)
    ensures
        *old(match_timer) is None ==> !expired && *final(match_timer) is None,
        *old(match_timer) matches Some(before) ==> {
            &&& expired == before.0@.tick(delta as nat).just_finished
            &&& expired ==> *final(match_timer) is None
            &&& !expired ==> (*final(match_timer) matches Some(after) && after.0@ == before.0@.tick(
                delta as nat,
            ))
        },
{
    match *match_timer {
        None => false,
        Some(timer) => {
            let mut timer = timer;
            if timer.0.tick(delta) {
                *match_timer = None;
                true
            } else {
                *match_timer = Some(timer);
                false
            }
        },
    }
}

/// Runs the countdown for one tick of `delta` microseconds and serves the
/// ball when it has run down: toward the half of the last winner or, before
/// the first point, toward the half that the coin `heads` picks, with the
/// vertical speed `vertical`.
pub fn start_match_with(
    settings: &Settings,
    velocity: &mut LinearVelocity,
    game_data: &GameActiveData,
    delta: u32,
    match_timer: &mut Option<StartMatchTimer>,
    heads: bool,
    vertical: i32,
)
    requires
        settings.wf(),
    ensures
        *old(match_timer) is None ==> *final(match_timer) is None
            && *final(velocity) == *old(velocity),
        *old(match_timer) matches Some(before) ==> {
            if before.0@.tick(delta as nat).just_finished {
                &&& *final(match_timer) is None
                &&& final(velocity).0 == Ball::served(
                    *settings,
                    serve_direction(game_data.winner(), heads),
                    vertical,
                )
                &&& final(velocity).0.x != 0
            } else {
                &&& *final(match_timer) matches Some(after) && after.0@ == before.0@.tick(
                    delta as nat,
                )
                &&& *final(velocity) == *old(velocity)
            }
        },
{
    if run_countdown(match_timer, delta) {
        let direction = next_ball_direction_with(game_data.last_winner(), heads);
        velocity.0 = Ball::linear_velocity(settings, direction, vertical);
    }
}

/// Runs the countdown for one tick of `delta` microseconds and serves the
/// ball when it has run down. The coin and the vertical speed, up to half
/// the serve speed either way, are drawn.
pub fn start_match(
    settings: &Settings,
    velocity: &mut LinearVelocity,
    game_data: &GameActiveData,
    delta: u32,
    match_timer: &mut Option<StartMatchTimer>,
)
    requires
        settings.wf(),
    ensures
        *old(match_timer) is None ==> *final(match_timer) is None
            && *final(velocity) == *old(velocity),
        *old(match_timer) matches Some(before) ==> {
            if before.0@.tick(delta as nat).just_finished {
                &&& *final(match_timer) is None
                &&& exists|heads: bool|
                    final(velocity).0 == #[trigger] Ball::served(
                        *settings,
                        serve_direction(game_data.winner(), heads),
                        final(velocity).0.y,
                    )
                &&& game_data.winner() matches Some(player) ==> final(velocity).0.x
                    == Ball::start_x(*settings, player.side_of_arena())
                &&& final(velocity).0.x != 0
                &&& -(settings.ball_start_velocity / 2) <= final(velocity).0.y
                    <= settings.ball_start_velocity / 2
            } else {
                &&& *final(match_timer) matches Some(after) && after.0@ == before.0@.tick(
                    delta as nat,
                )
                &&& *final(velocity) == *old(velocity)
            }
        },
{
    if run_countdown(match_timer, delta) {
        let direction = next_ball_direction(game_data.last_winner());
        velocity.0 = Ball::random_linear_velocity(settings, direction);
    }
}

/// Whatever the ball meets, after a tick neither component of its velocity
/// exceeds the cap.
pub proof fn lemma_ball_keeps_speed_cap(
    settings: Settings,
    transform: Transform,
    velocity: LinearVelocity,
    colliders: Seq<Collider>,
    micros: int,
    spin: int,
)
    requires
        settings.wf(),
    ensures
        Ball::within_cap(
            settings,
            moved_ball(settings, transform, velocity, colliders, micros, spin).1.0,
        ),
{
}

/// One tick of the ball: the colliders it meets, the length of the tick and
/// the number drawn for the paddles.
pub struct BallTick {
    pub colliders: Seq<Collider>,
    pub micros: int,
    pub spin: int,
}

/// The ball after the given ticks, one after the other.
pub open spec fn ball_after_ticks(
    settings: Settings,
    body: (Transform, LinearVelocity),
    ticks: Seq<BallTick>,
) -> (Transform, LinearVelocity)
    decreases ticks.len(),
{
    if ticks.len() == 0 {
        body
    } else {
        let before = ball_after_ticks(settings, body, ticks.drop_last());
        moved_ball(
            settings,
            before.0,
            before.1,
            ticks.last().colliders,
            ticks.last().micros,
            ticks.last().spin,
        )
    }
}

/// After any number of ticks, whatever walls and paddles the ball bounced
/// off and however fast it began, neither component of its velocity exceeds
/// the cap.
pub proof fn lemma_speed_cap_holds_after_ticks(
    settings: Settings,
    body: (Transform, LinearVelocity),
    ticks: Seq<BallTick>,
)
    requires
        settings.wf(),
        ticks.len() > 0,
    ensures
        Ball::within_cap(settings, ball_after_ticks(settings, body, ticks).1.0),
{
}

/// A ball that touches none of the colliders is none the different for them.
pub proof fn lemma_untouched_ball_is_unchanged(
    settings: Settings,
    body: (Transform, LinearVelocity),
    circle: BoundingCircle,
    colliders: Seq<Collider>,
    spin: int,
)
    requires
        forall|i: int|
            0 <= i < colliders.len() ==> penetration(circle, #[trigger] colliders[i].aabb())
                is None,
    ensures
        struck_by_all(settings, body, circle, colliders, spin) == body,
    decreases colliders.len(),
{
    if colliders.len() > 0 {
        let rest = colliders.drop_last();
        assert forall|i: int| 0 <= i < rest.len() implies penetration(
            circle,
            #[trigger] rest[i].aabb(),
        ) is None by {
            assert(rest[i] == colliders[i]);
        }
        lemma_untouched_ball_is_unchanged(settings, body, circle, rest, spin);
        assert(penetration(circle, colliders[colliders.len() - 1].aabb()) is None);
    }
}

/// Getting faster keeps the direction.
pub proof fn lemma_speed_up_keeps_direction(settings: Settings, speed: int, micros: int)
    requires
        settings.wf(),
        micros >= 0,
    ensures
        speed > 0 ==> sped_up(settings, speed, micros) > 0,
        speed < 0 ==> sped_up(settings, speed, micros) < 0,
        speed == 0 ==> sped_up(settings, speed, micros) == 0,
{
    let grown = speed * settings.ball_acceleration * micros;
    let a = settings.ball_acceleration as int;
    assert((speed >= 0 ==> grown >= 0) && (speed <= 0 ==> grown <= 0)) by (nonlinear_arith)
        requires
            grown == speed * a * micros,
            a >= 0,
            micros >= 0,
    ;
    lemma_toward_zero_bounds(grown, UNIT * MICROS_PER_SECOND);
}

/// A tick in which the ball touches nothing does not turn it round: it
/// moves on along its velocity, and a ball that moved right still moves
/// right, one that moved left still moves left. Its vertical speed does not
/// change sides either, though the slowest may come to rest.
pub proof fn lemma_free_flight_keeps_direction(
    settings: Settings,
    transform: Transform,
    velocity: LinearVelocity,
    colliders: Seq<Collider>,
    micros: int,
    spin: int,
)
    requires
        settings.wf(),
        velocity.0.wf(),
        micros >= 0,
        flies_free(settings, transform, velocity.0, colliders, micros),
    ensures
        moved_ball(settings, transform, velocity, colliders, micros, spin).0 == advanced(
            transform,
            velocity.0,
            micros,
        ),
        velocity.0.x > 0 ==> moved_ball(settings, transform, velocity, colliders, micros, spin).1.0.x
            > 0,
        velocity.0.x < 0 ==> moved_ball(settings, transform, velocity, colliders, micros, spin).1.0.x
            < 0,
        velocity.0.y >= 0 ==> moved_ball(
            settings,
            transform,
            velocity,
            colliders,
            micros,
            spin,
        ).1.0.y >= 0,
        velocity.0.y <= 0 ==> moved_ball(
            settings,
            transform,
            velocity,
            colliders,
            micros,
            spin,
        ).1.0.y <= 0,
{
    let start = (
        advanced(transform, velocity.0, micros),
        LinearVelocity(accelerated(settings, velocity.0, micros)),
    );
    let circle = circle_after_advance(settings, transform, velocity.0, micros);
    lemma_untouched_ball_is_unchanged(settings, start, circle, colliders, spin);
    lemma_speed_up_keeps_direction(settings, velocity.0.x as int, micros);
    lemma_speed_up_keeps_direction(settings, velocity.0.y as int, micros);
    let fast = accelerated(settings, velocity.0, micros);
    lemma_toward_zero_bounds(fast.x * REBALANCE_GROW, UNIT as int);
    lemma_toward_zero_bounds(fast.y * REBALANCE_SHRINK, UNIT as int);
}

/// A ball that was turned back by a hit keeps its new direction through a
/// tick in which it touches nothing: after a hit on the right side of a box
/// a ball that moved left moves right, and still does so a tick later; and
/// so for a hit on the left side.
pub proof fn lemma_turned_ball_is_not_turned_again(
    settings: Settings,
    transform: Transform,
    velocity: LinearVelocity,
    colliders: Seq<Collider>,
    micros: int,
    spin: int,
)
    requires
        settings.wf(),
        velocity.0.wf(),
        micros >= 0,
    ensures
        velocity.0.x < 0 && flies_free(
            settings,
            transform,
            Collision::Right.reflect(velocity.0),
            colliders,
            micros,
        ) ==> moved_ball(
            settings,
            transform,
            LinearVelocity(Collision::Right.reflect(velocity.0)),
            colliders,
            micros,
            spin,
        ).1.0.x > 0,
        velocity.0.x > 0 && flies_free(
            settings,
            transform,
            Collision::Left.reflect(velocity.0),
            colliders,
            micros,
        ) ==> moved_ball(
            settings,
            transform,
            LinearVelocity(Collision::Left.reflect(velocity.0)),
            colliders,
            micros,
            spin,
        ).1.0.x < 0,
{
    if velocity.0.x < 0 && flies_free(
        settings,
        transform,
        Collision::Right.reflect(velocity.0),
        colliders,
        micros,
    ) {
        lemma_free_flight_keeps_direction(
            settings,
            transform,
            LinearVelocity(Collision::Right.reflect(velocity.0)),
            colliders,
            micros,
            spin,
        );
    }
    if velocity.0.x > 0 && flies_free(
        settings,
        transform,
        Collision::Left.reflect(velocity.0),
        colliders,
        micros,
    ) {
        lemma_free_flight_keeps_direction(
            settings,
            transform,
            LinearVelocity(Collision::Left.reflect(velocity.0)),
            colliders,
            micros,
            spin,
        );
    }
}

/// The ball is served into the half of the player who scored last: to the
/// left, with a negative horizontal speed, after a point of the main player,
/// and to the right after a point of the second player or the computer,
/// whatever the coin shows and whatever vertical speed is drawn.
pub proof fn lemma_serve_goes_to_the_winners_half(
    settings: Settings,
    winner: PlayerType,
    heads: bool,
    vertical: i32,
)
    requires
        settings.wf(),
    ensures
        winner == PlayerType::Main ==> Ball::served(
            settings,
            serve_direction(Some(winner), heads),
            vertical,
        ).x == -settings.ball_start_velocity,
        winner != PlayerType::Main ==> Ball::served(
            settings,
            serve_direction(Some(winner), heads),
            vertical,
        ).x == settings.ball_start_velocity,
        winner == PlayerType::Main ==> Ball::served(
            settings,
            serve_direction(Some(winner), heads),
            vertical,
        ).x < 0,
        winner != PlayerType::Main ==> Ball::served(
            settings,
            serve_direction(Some(winner), heads),
            vertical,
        ).x > 0,
{
}

/// The height that the computer steers to lies on the ball's path: the
/// ball's climb to it, taken times the horizontal speed, is the vertical
/// speed times the distance to the right side, short of the rounding.
pub proof fn lemma_prediction_lies_on_the_path(settings: Settings, ball: Vec2, velocity: Vec2)
    requires
        settings.wf(),
        velocity.x > 0,
    ensures
        ({
            let reach = distance_to_right_side(settings, ball);
            let climb = predicted_crossing(settings, ball, velocity) - ball.y;
            &&& magnitude(climb * velocity.x) <= magnitude(velocity.y * reach)
            &&& magnitude(velocity.y * reach) - magnitude(climb * velocity.x) < velocity.x
        }),
{
    let reach = distance_to_right_side(settings, ball);
    let rise = velocity.y * reach;
    lemma_toward_zero_bounds(rise, velocity.x as int);
    let climb = toward_zero(rise, velocity.x as int);
    let vx = velocity.x as int;
    if rise >= 0 {
        assert(climb * vx >= 0) by (nonlinear_arith)
            requires
                climb >= 0,
                vx > 0,
        ;
        assert((climb + 1) * vx == climb * vx + vx) by (nonlinear_arith);
    } else {
        assert(climb * vx <= 0) by (nonlinear_arith)
            requires
                climb <= 0,
                vx > 0,
        ;
        assert((climb - 1) * vx == climb * vx - vx) by (nonlinear_arith);
    }
}

/// While the ball is in the left half, on the center line or not moving to
/// the right, the computer's paddle stays where it is.
pub proof fn lemma_ai_rests_while_ball_is_away(
    settings: Settings,
    y: int,
    ball: Vec2,
    velocity: Vec2,
    micros: int,
)
    ensures
        ball.x <= 0 || velocity.x <= 0 ==> ai_steered(settings, y, ball, velocity, micros) == y,
{
}

} // verus!
