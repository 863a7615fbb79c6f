//! The play field and what stands and moves in it: the walls, the paddles and
//! the ball.

use vstd::prelude::*;
use crate::fixed::{
    clamp_i64, clamped, saturate, saturated, toward_zero, travel, travel_distance, UNIT,
};
use crate::game::physics::{Collider, LinearVelocity};
use crate::game::random::random_in_range;
use crate::math::{Aabb2d, BoundingCircle, Circle, Transform, Vec2};
use crate::settings::Settings;

verus! {

/// The play field: a rectangle of `arena_width` by `arena_height` around the
/// origin.
#[derive(Clone, Copy, Debug, PartialEq, Eq, Structural)]
pub struct Arena;

impl Arena {
    /// Half the thickness of the strips that lie behind the arena's sides.
    pub const COLLIDER_HALF_THICKNESS: i32 = 500;

    /// The strip behind the right side of the arena: it begins on the side
    /// and is twice as high as the arena.
    pub open spec fn right_strip(settings: Settings) -> Aabb2d {
        Aabb2d {
            min: Vec2 { x: (settings.arena_width / 2) as i32, y: (-settings.arena_height) as i32 },
            max: Vec2 {
                x: (settings.arena_width / 2 + 2 * Self::COLLIDER_HALF_THICKNESS) as i32,
                y: settings.arena_height,
            },
        }
    }

    /// The strip behind the left side of the arena.
    pub open spec fn left_strip(settings: Settings) -> Aabb2d {
        Aabb2d {
            min: Vec2 {
                x: (-(settings.arena_width / 2) - 2 * Self::COLLIDER_HALF_THICKNESS) as i32,
                y: (-settings.arena_height) as i32,
            },
            max: Vec2 { x: (-(settings.arena_width / 2)) as i32, y: settings.arena_height },
        }
    }

    /// The strip behind the left side of the arena.
    pub fn left_collider(settings: &Settings) -> (strip: Aabb2d)
        requires
            settings.wf(),
        ensures
            strip == Self::left_strip(*settings),
            strip.wf(),
    {
        Aabb2d::new(
            Vec2 { x: -(settings.arena_width / 2) - Self::COLLIDER_HALF_THICKNESS, y: 0 },
            Vec2 { x: Self::COLLIDER_HALF_THICKNESS, y: settings.arena_height },
        )
    }

    /// The strip behind the right side of the arena.
    pub fn right_collider(settings: &Settings) -> (strip: Aabb2d)
        requires
            settings.wf(),
        ensures
            strip == Self::right_strip(*settings),
            strip.wf(),
    {
        Aabb2d::new(
            Vec2 { x: settings.arena_width / 2 + Self::COLLIDER_HALF_THICKNESS, y: 0 },
            Vec2 { x: Self::COLLIDER_HALF_THICKNESS, y: settings.arena_height },
        )
    }
}

/// One of the two halves of the arena, or the way toward it.
#[derive(Clone, Copy, Debug, PartialEq, Eq, Structural)]
pub enum ArenaDirection {
    Left,
    Right,
}

impl ArenaDirection {
    /// The other half.
    pub open spec fn opposite(self) -> ArenaDirection {
        match self {
            ArenaDirection::Left => ArenaDirection::Right,
            ArenaDirection::Right => ArenaDirection::Left,
        }
    }

    /// The half that a coin picks: left on heads.
    pub open spec fn of_coin(heads: bool) -> ArenaDirection {
        if heads {
            ArenaDirection::Left
        } else {
            ArenaDirection::Right
        }
    }

    /// The other half.
    pub fn inverted(&self) -> (direction: Self)
        ensures
            direction == self.opposite(),
            direction != *self,
            direction.opposite() == *self,
    {
        match *self {
            ArenaDirection::Left => ArenaDirection::Right,
            ArenaDirection::Right => ArenaDirection::Left,
        }
    }

    /// The half that a coin picks: left on heads.
    pub fn from_coin(heads: bool) -> (direction: Self)
        ensures
            direction == Self::of_coin(heads),
    {
        if heads {
            ArenaDirection::Left
        } else {
            ArenaDirection::Right
        }
    }
}

/// The two walls that close the arena above and below.
#[derive(Clone, Copy, Debug, PartialEq, Eq, Structural)]
pub enum Wall {
    Top,
    Bottom,
}

impl Wall {
    /// Where the wall stands. Its center lies half a thickness outside the
    /// arena, so that its inner face is the arena's border; it is longer
    /// than the arena is wide by one thickness.
    pub open spec fn placed(self, settings: Settings) -> Transform {
        let y = settings.arena_height / 2 + settings.wall_thickness / 2;
        Transform {
            translation: Vec2 {
                x: 0,
                y: match self {
                    Wall::Top => y as i32,
                    Wall::Bottom => (-y) as i32,
                },
            },
            scale: Vec2 {
                x: (settings.arena_width + settings.wall_thickness) as i32,
                y: settings.wall_thickness,
            },
        }
    }

    /// Where the top wall stands.
    pub fn top_transform(settings: &Settings) -> (transform: Transform)
        requires
            settings.wf(),
        ensures
            transform == Wall::Top.placed(*settings),
            transform.wf(),
    {
        Transform {
            translation: Vec2 { x: 0, y: settings.arena_height / 2 + settings.wall_thickness / 2 },
            scale: Vec2 {
                x: settings.arena_width + settings.wall_thickness,
                y: settings.wall_thickness,
            },
        }
    }

    /// Where the bottom wall stands.
    pub fn bottom_transform(settings: &Settings) -> (transform: Transform)
        requires
            settings.wf(),
        ensures
            transform == Wall::Bottom.placed(*settings),
            transform.wf(),
    {
        Transform {
            translation: Vec2 {
                x: 0,
                y: -(settings.arena_height / 2) - settings.wall_thickness / 2,
            },
            scale: Vec2 {
                x: settings.arena_width + settings.wall_thickness,
                y: settings.wall_thickness,
            },
        }
    }

    /// Where this wall stands.
    pub fn transform(&self, settings: &Settings) -> (transform: Transform)
        requires
            settings.wf(),
        ensures
            transform == self.placed(*settings),
            transform.wf(),
    {
        match *self {
            Wall::Top => Self::top_transform(settings),
            Wall::Bottom => Self::bottom_transform(settings),
        }
    }
}

/// The walls close the arena: each is one wall thickness longer than the
/// arena is wide, its box reaches at least from the arena's left side to its
/// right side, and its inner face lies on the arena's border at half the
/// arena's height, above and below.
pub proof fn lemma_walls_close_the_arena(settings: Settings)
    requires
        settings.wf(),
    ensures
        Wall::Top.placed(settings).scale.x == settings.arena_width + settings.wall_thickness,
        Wall::Bottom.placed(settings).scale.x == settings.arena_width + settings.wall_thickness,
        Wall::Top.placed(settings).translation.y == -Wall::Bottom.placed(settings).translation.y,
        (Collider { transform: Wall::Top.placed(settings), paddle: false }).aabb().min.y
            == settings.arena_height / 2,
        (Collider { transform: Wall::Bottom.placed(settings), paddle: false }).aabb().max.y == -(
        settings.arena_height / 2),
        (Collider { transform: Wall::Top.placed(settings), paddle: false }).aabb().min.x <= -(
        settings.arena_width / 2),
        (Collider { transform: Wall::Top.placed(settings), paddle: false }).aabb().max.x
            >= settings.arena_width / 2,
        (Collider { transform: Wall::Bottom.placed(settings), paddle: false }).aabb().min.x <= -(
        settings.arena_width / 2),
        (Collider { transform: Wall::Bottom.placed(settings), paddle: false }).aabb().max.x
            >= settings.arena_width / 2,
{
}

/// A paddle: a box of `paddle_thickness` by `paddle_length` that moves along
/// y only.
#[derive(Clone, Copy, Debug, PartialEq, Eq, Structural)]
pub struct Paddle;

/// The two ways a paddle can move.
#[derive(Clone, Copy, Debug, PartialEq, Eq, Structural)]
pub enum PaddleDirection {
    Up,
    Down,
}

impl Paddle {
    /// How far from the arena's center line a paddle stands: its outer face
    /// is `paddle_edge_margin` away from the arena's side.
    pub open spec fn anchor(settings: Settings) -> int {
        settings.arena_width / 2 - settings.paddle_edge_margin - settings.paddle_thickness / 2
    }

    /// Where the paddle of the given half starts a match.
    pub open spec fn placed(settings: Settings, half: ArenaDirection) -> Transform {
        Transform {
            translation: Vec2 {
                x: match half {
                    ArenaDirection::Left => (-Self::anchor(settings)) as i32,
                    ArenaDirection::Right => Self::anchor(settings) as i32,
                },
                y: 0,
            },
            scale: Vec2 { x: settings.paddle_thickness, y: settings.paddle_length },
        }
    }

    /// The highest position of a paddle's center: half the arena's height
    /// less half the paddle's length.
    pub open spec fn highest(settings: Settings) -> int {
        settings.arena_height / 2 - settings.paddle_length / 2
    }

    /// The lowest position of a paddle's center.
    pub open spec fn lowest(settings: Settings) -> int {
        -(settings.arena_height / 2) + settings.paddle_length / 2
    }

    /// Whether a paddle at height `y` is inside the arena.
    pub open spec fn in_range(settings: Settings, y: int) -> bool {
        Self::lowest(settings) <= y <= Self::highest(settings)
    }

    /// The height of a paddle that moved from `y` for `micros` microseconds.
    pub open spec fn moved(
        settings: Settings,
        direction: PaddleDirection,
        y: int,
        micros: int,
    ) -> int {
        match direction {
            PaddleDirection::Up => saturated(y + travel(settings.paddle_velocity as int, micros)),
            PaddleDirection::Down => saturated(y - travel(settings.paddle_velocity as int, micros)),
        }
    }

    /// The height `y` brought back into the arena.
    pub open spec fn kept(settings: Settings, y: int) -> int {
        clamped(y, Self::lowest(settings), Self::highest(settings))
    }

    /// Where the left paddle starts a match.
    pub fn new_main_transform(settings: &Settings) -> (transform: Transform)
        requires
            settings.wf(),
        ensures
            transform == Self::placed(*settings, ArenaDirection::Left),
            transform.wf(),
            Self::in_range(*settings, transform.translation.y as int),
    {
        Transform {
            translation: Vec2 {
                x: -(settings.arena_width / 2) + settings.paddle_edge_margin
                    + settings.paddle_thickness / 2,
                y: 0,
            },
            scale: Vec2 { x: settings.paddle_thickness, y: settings.paddle_length },
        }
    }

    /// Where the right paddle starts a match.
    pub fn new_second_transform(settings: &Settings) -> (transform: Transform)
        requires
            settings.wf(),
        ensures
            transform == Self::placed(*settings, ArenaDirection::Right),
            transform.wf(),
            Self::in_range(*settings, transform.translation.y as int),
    {
        Transform {
            translation: Vec2 {
                x: settings.arena_width / 2 - settings.paddle_edge_margin
                    - settings.paddle_thickness / 2,
                y: 0,
            },
            scale: Vec2 { x: settings.paddle_thickness, y: settings.paddle_length },
        }
    }

    /// Moves the paddle up or down for `delta` microseconds at the paddle's
    /// speed. The arena's borders are not looked at.
    pub fn move_vertically(
        settings: &Settings,
        direction: PaddleDirection,
        transform: &mut Transform,
        delta: u32,
    )
        requires
            settings.wf(),
        ensures
            final(transform).translation.y == Self::moved(
                *settings,
                direction,
                old(transform).translation.y as int,
                delta as int,
            ),
            final(transform).translation.x == old(transform).translation.x,
            final(transform).scale == old(transform).scale,
    {
        let step = travel_distance(settings.paddle_velocity, delta);
        match direction {
            PaddleDirection::Up => {
                transform.translation.y = saturate(transform.translation.y as i64 + step);
            },
            PaddleDirection::Down => {
                transform.translation.y = saturate(transform.translation.y as i64 - step);
            },
        };
    }

    /// The lowest position of a paddle's center.
    pub fn min_y_position(settings: &Settings) -> (y: i32)
        requires
            settings.wf(),
        ensures
            y == Self::lowest(*settings),
            y <= 0,
    {
        -(settings.arena_height / 2) + settings.paddle_length / 2
    }

    /// The highest position of a paddle's center.
    pub fn max_y_position(settings: &Settings) -> (y: i32)
        requires
            settings.wf(),
        ensures
            y == Self::highest(*settings),
            y == -Self::lowest(*settings),
            y >= 0,
    {
        settings.arena_height / 2 - settings.paddle_length / 2
    }

    /// Brings the paddle back into the arena.
    pub fn clamp_position(settings: &Settings, transform: &mut Transform)
        requires
            settings.wf(),
        ensures
            final(transform).translation.y == Self::kept(
                *settings,
                old(transform).translation.y as int,
            ),
            Self::in_range(*settings, final(transform).translation.y as int),
            final(transform).translation.x == old(transform).translation.x,
            final(transform).scale == old(transform).scale,
    {
        transform.translation.y = clamp_i64(
            transform.translation.y as i64,
            Self::min_y_position(settings) as i64,
            Self::max_y_position(settings) as i64,
        ) as i32;
    }
}

/// The height of a paddle that, from `y`, made one move for each entry of
/// `deltas`, all in one direction, and was brought back into the arena after
/// each.
pub open spec fn paddle_after_moves(
    settings: Settings,
    direction: PaddleDirection,
    y: int,
    deltas: Seq<u32>,
) -> int
    decreases deltas.len(),
{
    if deltas.len() == 0 {
        y
    } else {
        Paddle::kept(
            settings,
            Paddle::moved(
                settings,
                direction,
                paddle_after_moves(settings, direction, y, deltas.drop_last()),
                deltas.last() as int,
            ),
        )
    }
}

/// However many moves a paddle makes in one direction, and wherever it
/// started, after the first of them it is inside the arena.
pub proof fn lemma_paddle_stays_in_arena(
    settings: Settings,
    direction: PaddleDirection,
    y: int,
    deltas: Seq<u32>,
)
    requires
        settings.wf(),
        deltas.len() > 0,
    ensures
        Paddle::in_range(settings, paddle_after_moves(settings, direction, y, deltas)),
{
}

/// The ball: a circle with a position and a velocity.
#[derive(Clone, Copy, Debug, PartialEq, Eq, Structural)]
pub struct Ball;

impl Ball {
    /// The scale of the ball's transform, in thousandths: the circle is drawn
    /// twice as large as its primitive.
    pub const SCALE: i32 = 2000;

    /// The radius of the circle of a ball with the given scale: the radius of
    /// the primitive times the mean of the two scale factors, kept in the
    /// limit.
    pub open spec fn radius(settings: Settings, scale: Vec2) -> int {
        saturated(toward_zero(settings.ball_radius * (scale.x + scale.y), 2 * UNIT))
    }

    /// The horizontal speed of a ball served toward `direction`.
    pub open spec fn start_x(settings: Settings, direction: ArenaDirection) -> int {
        match direction {
            ArenaDirection::Left => -settings.ball_start_velocity,
            ArenaDirection::Right => settings.ball_start_velocity as int,
        }
    }

    /// `velocity` with each component moved into the speed cap.
    pub open spec fn limited(settings: Settings, velocity: Vec2) -> Vec2 {
        Vec2 {
            x: clamped(
                velocity.x as int,
                -settings.ball_max_speed,
                settings.ball_max_speed as int,
            ) as i32,
            y: clamped(
                velocity.y as int,
                -settings.ball_max_speed,
                settings.ball_max_speed as int,
            ) as i32,
        }
    }

    /// Whether neither component of `velocity` is faster than the cap.
    pub open spec fn within_cap(settings: Settings, velocity: Vec2) -> bool {
        &&& -settings.ball_max_speed <= velocity.x <= settings.ball_max_speed
        &&& -settings.ball_max_speed <= velocity.y <= settings.ball_max_speed
    }

    /// The velocity of a ball served toward `direction` with the vertical
    /// speed `vertical`.
    pub open spec fn served(settings: Settings, direction: ArenaDirection, vertical: i32) -> Vec2 {
        Self::limited(settings, Vec2 { x: Self::start_x(settings, direction) as i32, y: vertical })
    }

    /// The half of the arena that the point `x` lies in; the center line
    /// counts as left.
    pub open spec fn half_of(x: int) -> ArenaDirection {
        if x > 0 {
            ArenaDirection::Right
        } else {
            ArenaDirection::Left
        }
    }

    /// The ball's circle before its transform enlarges it.
    pub fn primitive(settings: &Settings) -> (circle: Circle)
        ensures
            circle.radius == settings.ball_radius,
    {
        Circle { radius: settings.ball_radius }
    }

    /// The circle that a ball with this transform fills.
    pub fn bounding_circle(settings: &Settings, transform: &Transform) -> (circle: BoundingCircle)
        requires
            settings.wf(),
            transform.wf(),
        ensures
            circle.center == transform.translation,
            circle.radius == Self::radius(*settings, transform.scale),
            circle.wf(),
    {
        let r: i64 = settings.ball_radius as i64;
        let s: i64 = transform.scale.x as i64 + transform.scale.y as i64;
        assert(0 <= r * s <= 2_000_000_000_000_000_000) by (nonlinear_arith)
            requires
                0 <= r <= 1_000_000_000,
                0 <= s <= 2_000_000_000,
        ;
        let radius = saturate((r * s) / (2 * UNIT as i64));
        BoundingCircle::new(transform.translation, radius)
    }

    /// The horizontal speed of a ball served toward `direction`.
    pub fn start_velocity_x(settings: &Settings, direction: ArenaDirection) -> (speed: i32)
        requires
            settings.wf(),
        ensures
            speed == Self::start_x(*settings, direction),
            speed != 0,
    {
        match direction {
            ArenaDirection::Left => -settings.ball_start_velocity,
            ArenaDirection::Right => settings.ball_start_velocity,
        }
    }

    /// The velocity of a ball served toward `direction` with the vertical
    /// speed `vertical`, which the speed cap bounds.
    pub fn linear_velocity(settings: &Settings, direction: ArenaDirection, vertical: i32) -> (velocity:
        Vec2)
        requires
            settings.wf(),
        ensures
            velocity == Self::served(*settings, direction, vertical),
            velocity.x == Self::start_x(*settings, direction),
            Self::within_cap(*settings, velocity),
    {
        let mut velocity = LinearVelocity(
            Vec2 { x: Self::start_velocity_x(settings, direction), y: vertical },
        );
        Self::limit_velocity(settings, &mut velocity);
        velocity.0
    }

    /// The velocity of a ball served toward `direction`, with a vertical
    /// speed drawn from up to half the serve speed either way.
    pub fn random_linear_velocity(settings: &Settings, direction: ArenaDirection) -> (velocity: Vec2)
        requires
            settings.wf(),
        ensures
            velocity.x == Self::start_x(*settings, direction),
            -(settings.ball_start_velocity / 2) <= velocity.y <= settings.ball_start_velocity / 2,
            velocity == Self::served(*settings, direction, velocity.y),
    {
        let half = settings.ball_start_velocity / 2;
        let vertical = random_in_range(-half, half);
        Self::linear_velocity(settings, direction, vertical)
    }

    /// Moves each component of the velocity into the speed cap.
    pub fn limit_velocity(settings: &Settings, velocity: &mut LinearVelocity)
        requires
            settings.wf(),
        ensures
            final(velocity).0 == Self::limited(*settings, old(velocity).0),
            Self::within_cap(*settings, final(velocity).0),
            final(velocity).0.wf(),
    {
        let max = settings.ball_max_speed as i64;
        velocity.0.x = clamp_i64(velocity.0.x as i64, -max, max) as i32;
        velocity.0.y = clamp_i64(velocity.0.y as i64, -max, max) as i32;
    }

    /// Where the ball waits for the serve: on the center, at scale `SCALE`.
    pub fn initial_transform() -> (transform: Transform)
        ensures
            transform == (Transform {
                translation: Vec2 { x: 0, y: 0 },
                scale: Vec2 { x: Self::SCALE, y: Self::SCALE },
            }),
            transform.wf(),
    {
        Transform {
            translation: Vec2 { x: 0, y: 0 },
            scale: Vec2 { x: Self::SCALE, y: Self::SCALE },
        }
    }

    /// Puts the ball on the center and stops it.
    pub fn reset_initial_stationary_position(
        transform: &mut Transform,
        velocity: &mut LinearVelocity,
    )
        ensures
            final(transform).translation == (Vec2 { x: 0, y: 0 }),
            final(transform).scale == old(transform).scale,
            final(velocity).0 == (Vec2 { x: 0, y: 0 }),
    {
        transform.translation = Vec2::zero();
        velocity.0 = Vec2::zero();
    }

    /// The half of the arena that the ball is in; the center line counts as
    /// left.
    pub fn current_arena_direction(transform: &Transform) -> (half: ArenaDirection)
        ensures
            half == Self::half_of(transform.translation.x as int),
    {
        if transform.translation.x > 0 {
            ArenaDirection::Right
        } else {
            ArenaDirection::Left
        }
    }

    /// The half of the arena that the ball moves toward; a ball that does not
    /// move sideways counts as moving left.
    pub fn moving_to_arena_direction(velocity: &LinearVelocity) -> (half: ArenaDirection)
        ensures
            half == Self::half_of(velocity.0.x as int),
    {
        if velocity.0.x > 0 {
            ArenaDirection::Right
        } else {
            ArenaDirection::Left
        }
    }
}

} // verus!
