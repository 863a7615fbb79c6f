//! The tunable numbers of the game.

use vstd::prelude::*;
use crate::fixed::LIMIT;

pub mod input;

verus! {

/// Every length, speed and duration that shapes a match. Lengths are in
/// sub-units, speeds in sub-units per second.
#[derive(Clone, Copy, Debug, PartialEq, Eq, Structural)]
pub struct Settings {
    /// Width of the play field, which is centered at the origin.
    pub arena_width: i32,
    /// Height of the play field.
    pub arena_height: i32,
    /// Thickness of the top and bottom walls.
    pub wall_thickness: i32,
    /// Extent of a paddle along y.
    pub paddle_length: i32,
    /// Extent of a paddle along x.
    pub paddle_thickness: i32,
    /// Gap between the arena's side and the paddle's outer face.
    pub paddle_edge_margin: i32,
    /// Speed of a moving paddle.
    pub paddle_velocity: i32,
    /// How close to its target the computer's paddle stops moving.
    pub ai_deadzone: i32,
    /// Radius of the ball's circle at scale one.
    pub ball_radius: i32,
    /// Horizontal speed of a served ball.
    pub ball_start_velocity: i32,
    /// The largest magnitude of either component of the ball's velocity.
    pub ball_max_speed: i32,
    /// By how many thousandths the ball's velocity grows per second.
    pub ball_acceleration: i32,
    /// Seconds between the start of a point and the serve.
    pub countdown_seconds: u32,
}

impl Settings {
    /// The largest width, height or wall thickness of an arena.
    pub const MAX_EXTENT: i32 = 500_000_000;

    /// Whether a match can be played with these numbers: the sizes are
    /// positive and fit the limit of the arithmetic, the walls leave room
    /// between them, a paddle fits between the walls and stands in its own
    /// half, and a served ball is not faster than the cap.
    pub open spec fn wf(self) -> bool {
        &&& 0 < self.arena_width <= Self::MAX_EXTENT
        &&& 0 < self.arena_height <= Self::MAX_EXTENT
        &&& 0 < self.wall_thickness <= Self::MAX_EXTENT
        &&& 2 * self.wall_thickness < self.arena_width
        &&& 0 < self.paddle_length <= self.arena_height
        &&& 0 < self.paddle_thickness
        &&& 0 <= self.paddle_edge_margin
        &&& self.paddle_edge_margin + self.paddle_thickness <= self.arena_width / 2
        &&& 0 < self.paddle_velocity <= LIMIT
        &&& 0 <= self.ai_deadzone <= LIMIT
        &&& 0 < self.ball_radius <= LIMIT
        &&& 0 < self.ball_start_velocity <= self.ball_max_speed
        &&& self.ball_max_speed <= LIMIT
        &&& 0 <= self.ball_acceleration <= LIMIT
    }

    /// The arena of the arcade game: 100 by 50 world units.
    pub open spec fn standard() -> Settings {
        Settings {
            arena_width: 100_000,
            arena_height: 50_000,
            wall_thickness: 2_000,
            paddle_length: 10_000,
            paddle_thickness: 1_200,
            paddle_edge_margin: 2_000,
            paddle_velocity: 50_000,
            ai_deadzone: 1_000,
            ball_radius: 500,
            ball_start_velocity: 18_000,
            ball_max_speed: 120_000,
            ball_acceleration: 50,
            countdown_seconds: 3,
        }
    }

    /// Whether a match can be played with these numbers.
    pub fn is_valid(&self) -> (ok: bool)
        ensures
            ok == self.wf(),
    {
        0 < self.arena_width && self.arena_width <= Self::MAX_EXTENT && 0 < self.arena_height
            && self.arena_height <= Self::MAX_EXTENT && 0 < self.wall_thickness
            && self.wall_thickness <= Self::MAX_EXTENT && 2 * (self.wall_thickness as i64)
            < self.arena_width as i64 && 0 < self.paddle_length && self.paddle_length
            <= self.arena_height && 0 < self.paddle_thickness && 0 <= self.paddle_edge_margin
            && self.paddle_edge_margin as i64 + self.paddle_thickness as i64 <= (self.arena_width
            / 2) as i64 && 0 < self.paddle_velocity && self.paddle_velocity <= LIMIT && 0
            <= self.ai_deadzone && self.ai_deadzone <= LIMIT && 0 < self.ball_radius
            && self.ball_radius <= LIMIT && 0 < self.ball_start_velocity
            && self.ball_start_velocity <= self.ball_max_speed && self.ball_max_speed <= LIMIT && 0
            <= self.ball_acceleration && self.ball_acceleration <= LIMIT
    }
}

impl Default for Settings {
    fn default() -> (settings: Self)
        ensures
            settings == Settings::standard(),
            settings.wf(),
    {
        Settings {
            arena_width: 100_000,
            arena_height: 50_000,
            wall_thickness: 2_000,
            paddle_length: 10_000,
            paddle_thickness: 1_200,
            paddle_edge_margin: 2_000,
            paddle_velocity: 50_000,
            ai_deadzone: 1_000,
            ball_radius: 500,
            ball_start_velocity: 18_000,
            ball_max_speed: 120_000,
            ball_acceleration: 50,
            countdown_seconds: 3,
        }
    }
}

} // verus!
