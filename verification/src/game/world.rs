//! The match as a whole: the bodies it holds, how they come and go with the
//! mode of the game, and the order of the steps of a tick.

use vstd::prelude::*;
use crate::fixed::magnitude;
use crate::game::arena::{ArenaDirection, Ball, Paddle, Wall};
use crate::game::event::{GameDataUpdated, PointMarked};
use crate::game::physics::{Collider, LinearVelocity};
use crate::game::player::{Player, PlayerSide, SecondPlayerType};
use crate::game::random::{random_bool, random_in_range};
use crate::game::resource::{GameActiveData, SecondPlayer, StartMatchTimer, TimerView};
use crate::game::state::{GameActiveState, GameState, InGame, StateRequest};
use crate::game::system::{
    ai_steered, check_ball_leaved_arena, has_left_arena, init_match, move_ball_with_spin,
    move_paddle_by_ai, move_paddle_by_player, moved_ball, points_for, register_score_point,
    reset_game_data, scorer, serve_direction, sped_up, speed_up, start_match_with, steered,
};
use crate::math::{Transform, Vec2};
use crate::settings::Settings;

verus! {

/// A wall as the match holds it.
#[derive(Clone, Copy, Debug, PartialEq, Eq, Structural)]
pub struct WallEntity {
    pub wall: Wall,
    pub transform: Transform,
}

/// A paddle as the match holds it: whose it is, whether the computer moves
/// it, and where it is.
#[derive(Clone, Copy, Debug, PartialEq, Eq, Structural)]
pub struct PaddleEntity {
    pub player: Player,
    pub ai: bool,
    pub transform: Transform,
}

/// The ball as the match holds it.
#[derive(Clone, Copy, Debug, PartialEq, Eq, Structural)]
pub struct BallEntity {
    pub transform: Transform,
    pub velocity: LinearVelocity,
}

/// Everything that a match owns, and the mode of the game.
#[derive(Debug)]
pub struct World {
    pub settings: Settings,
    /// The mode that the game is in.
    pub state: GameState,
    /// The mode that was asked for and is entered at the next
    /// `apply_state_transition`.
    pub next_state: Option<GameState>,
    pub second_player: SecondPlayer,
    pub game_data: GameActiveData,
    pub walls: Vec<WallEntity>,
    pub paddles: Vec<PaddleEntity>,
    pub ball: Option<BallEntity>,
    /// The countdown to the serve. While there is one, the ball rests.
    pub match_timer: Option<StartMatchTimer>,
}

impl World {
    /// Whether the settings allow a match and every body is where the
    /// arithmetic can follow it.
    pub open spec fn wf(self) -> bool {
        &&& self.settings.wf()
        &&& forall|i: int| 0 <= i < self.walls@.len() ==> (#[trigger] self.walls@[i]).transform.wf()
        &&& forall|i: int|
            0 <= i < self.paddles@.len() ==> (#[trigger] self.paddles@[i]).transform.wf()
        &&& self.ball matches Some(ball) ==> ball.transform.wf() && ball.velocity.0.wf()
    }

    /// The two walls of an arena, the top one first.
    pub open spec fn fresh_walls(settings: Settings) -> Seq<WallEntity> {
        seq![
            WallEntity { wall: Wall::Top, transform: Wall::Top.placed(settings) },
            WallEntity { wall: Wall::Bottom, transform: Wall::Bottom.placed(settings) },
        ]
    }

    /// Whether `paddles` are the two paddles of a match that begins against
    /// `opponent`, the left one first: each on its side at the height of the
    /// center, the right one moved by the computer if that is the opponent.
    pub open spec fn are_fresh_paddles(
        settings: Settings,
        opponent: SecondPlayerType,
        paddles: Seq<PaddleEntity>,
    ) -> bool {
        &&& paddles.len() == 2
        &&& paddles[0].player.side() == PlayerSide::Main
        &&& !paddles[0].ai
        &&& paddles[0].transform == Paddle::placed(settings, ArenaDirection::Left)
        &&& paddles[1].player.side() == PlayerSide::Other
        &&& paddles[1].ai == (opponent == SecondPlayerType::AI)
        &&& paddles[1].transform == Paddle::placed(settings, ArenaDirection::Right)
    }

    /// The ball of a match that begins: at rest on the center.
    pub open spec fn fresh_ball() -> BallEntity {
        BallEntity {
            transform: Transform {
                translation: Vec2 { x: 0, y: 0 },
                scale: Vec2 { x: Ball::SCALE, y: Ball::SCALE },
            },
            velocity: LinearVelocity(Vec2 { x: 0, y: 0 }),
        }
    }

    /// Whether the world holds no body of a match.
    pub open spec fn is_empty(self) -> bool {
        self.walls@.len() == 0 && self.paddles@.len() == 0 && self.ball is None
    }

    /// The game as it starts: in the main menu, with no match.
    pub fn new(settings: Settings) -> (world: Self)
        requires
            settings.wf(),
        ensures
            world.settings == settings,
            world.state == GameState::MainMenu,
            world.next_state is None,
            world.second_player.opponent == SecondPlayerType::Player,
            world.game_data.is_fresh(),
            world.is_empty(),
            world.match_timer is None,
            world.wf(),
    {
        World {
            settings,
            state: GameState::MainMenu,
            next_state: None,
            second_player: SecondPlayer::default(),
            game_data: GameActiveData::default(),
            walls: Vec::new(),
            paddles: Vec::new(),
            ball: None,
            match_timer: None,
        }
    }

    /// Asks for a change of mode. A request that means nothing in the
    /// present mode is dropped; one that does replaces what was asked for
    /// before. The mode itself changes at the next
    /// `apply_state_transition`.
    pub fn request(&mut self, request: StateRequest) -> (accepted: bool)
        ensures
            accepted == old(self).state.accepts(request),
            final(self).next_state == (if accepted {
                Some(old(self).state.after(request))
            } else {
                old(self).next_state
            }),
            final(self).state == old(self).state,
            final(self).settings == old(self).settings,
            final(self).second_player == old(self).second_player,
            final(self).game_data == old(self).game_data,
            final(self).walls@ == old(self).walls@,
            final(self).paddles@ == old(self).paddles@,
            final(self).ball == old(self).ball,
            final(self).match_timer == old(self).match_timer,
    {
        match self.state.request(request) {
            Some(next) => {
                self.next_state = Some(next);
                true
            },
            None => false,
        }
    }

    /// Changes the kind of opponent for the next match. The choice is open
    /// in the main menu only; elsewhere nothing changes.
    pub fn change_opponent(&mut self) -> (changed: bool)
        ensures
            changed == (old(self).state == GameState::MainMenu),
            final(self).second_player.opponent == (if changed {
                old(self).second_player.opponent.other()
            } else {
                old(self).second_player.opponent
            }),
            final(self).settings == old(self).settings,
            final(self).state == old(self).state,
            final(self).next_state == old(self).next_state,
            final(self).game_data == old(self).game_data,
            final(self).walls@ == old(self).walls@,
            final(self).paddles@ == old(self).paddles@,
            final(self).ball == old(self).ball,
            final(self).match_timer == old(self).match_timer,
    {
        match self.state {
            GameState::MainMenu => {
                self.second_player.opponent = self.second_player.opponent.change_opponent();
                true
            },
            _ => false,
        }
    }

    /// Sets up a match: the score is forgotten, then the walls, the paddles
    /// and the ball are put in place, and the countdown to the first serve
    /// begins.
    pub fn enter_game(&mut self)
        requires
            old(self).wf(),
        ensures
            final(self).wf(),
            final(self).settings == old(self).settings,
            final(self).state == old(self).state,
            final(self).next_state == old(self).next_state,
            final(self).second_player == old(self).second_player,
            final(self).game_data.is_fresh(),
            final(self).walls@ == old(self).walls@ + Self::fresh_walls(old(self).settings),
            final(self).paddles@.len() == old(self).paddles@.len() + 2,
            final(self).paddles@.take(old(self).paddles@.len() as int) == old(self).paddles@,
            Self::are_fresh_paddles(
                old(self).settings,
                old(self).second_player.opponent,
                final(self).paddles@.skip(old(self).paddles@.len() as int),
            ),
            final(self).ball == Some(Self::fresh_ball()),
            final(self).match_timer matches Some(timer) && timer.0@ == (TimerView {
                duration: old(self).settings.countdown_seconds as nat * 1_000_000,
                elapsed: 0,
                finished: false,
                just_finished: false,
            }),
    {
        reset_game_data(&mut self.game_data);
        spawn_arena(self);
        spawn_players(self);
        spawn_ball(self);
        init_match(&self.settings, &mut self.match_timer);
    }

    /// Takes the match down: the walls, the paddles and the ball go, and the
    /// score is forgotten.
    pub fn exit_game(&mut self)
        ensures
            final(self).settings == old(self).settings,
            final(self).state == old(self).state,
            final(self).next_state == old(self).next_state,
            final(self).second_player == old(self).second_player,
            final(self).match_timer == old(self).match_timer,
            final(self).game_data.is_fresh(),
            final(self).is_empty(),
            old(self).settings.wf() ==> final(self).wf(),
    {
        despawn_arena(self);
        despawn_players(self);
        despawn_ball(self);
        reset_game_data(&mut self.game_data);
    }

    /// Enters the mode that was asked for, if one was. A match is set up
    /// when the game comes into one from the menu and taken down when it
    /// leaves for the menu; between running and paused nothing is set up or
    /// taken down.
    pub fn apply_state_transition(&mut self) -> (changed: bool)
        requires
            old(self).wf(),
        ensures
            final(self).wf(),
            final(self).next_state is None,
            final(self).settings == old(self).settings,
            final(self).second_player == old(self).second_player,
            changed == old(self).next_state is Some,
            final(self).state == (match old(self).next_state {
                Some(next) => next,
                None => old(self).state,
            }),
            InGame::of(old(self).state) == InGame::of(final(self).state) ==> {
                &&& final(self).game_data == old(self).game_data
                &&& final(self).walls@ == old(self).walls@
                &&& final(self).paddles@ == old(self).paddles@
                &&& final(self).ball == old(self).ball
                &&& final(self).match_timer == old(self).match_timer
            },
            InGame::of(old(self).state) is None && InGame::of(final(self).state) is Some ==> {
                &&& final(self).game_data.is_fresh()
                &&& final(self).walls@ == old(self).walls@ + Self::fresh_walls(old(self).settings)
                &&& Self::are_fresh_paddles(
                    old(self).settings,
                    old(self).second_player.opponent,
                    final(self).paddles@.skip(old(self).paddles@.len() as int),
                )
                &&& final(self).paddles@.take(old(self).paddles@.len() as int) == old(self).paddles@
                &&& final(self).ball == Some(Self::fresh_ball())
                &&& final(self).match_timer is Some
            },
            InGame::of(old(self).state) is Some && InGame::of(final(self).state) is None ==> {
                &&& final(self).game_data.is_fresh()
                &&& final(self).is_empty()
                &&& final(self).match_timer == old(self).match_timer
            },
    {
        match self.next_state {
            None => false,
            Some(next) => {
                let was_in_game = InGame::compute(self.state).is_some();
                let is_in_game = InGame::compute(next).is_some();
                self.state = next;
                self.next_state = None;
                if was_in_game && !is_in_game {
                    self.exit_game();
                }
                if !was_in_game && is_in_game {
                    self.enter_game();
                }
                true
            },
        }
    }
}

/// Puts the two walls into the world, the top one first.
pub fn spawn_arena(world: &mut World)
    requires
        old(world).wf(),
    ensures
        final(world).wf(),
        final(world).walls@ == old(world).walls@ + World::fresh_walls(old(world).settings),
        final(world).settings == old(world).settings,
        final(world).state == old(world).state,
        final(world).next_state == old(world).next_state,
        final(world).second_player == old(world).second_player,
        final(world).game_data == old(world).game_data,
        final(world).paddles@ == old(world).paddles@,
        final(world).ball == old(world).ball,
        final(world).match_timer == old(world).match_timer,
{
    let top = WallEntity { wall: Wall::Top, transform: Wall::top_transform(&world.settings) };
    let bottom = WallEntity {
        wall: Wall::Bottom,
        transform: Wall::bottom_transform(&world.settings),
    };
    world.walls.push(top);
    world.walls.push(bottom);
}

/// Takes the walls out of the world.
pub fn despawn_arena(world: &mut World)
    ensures
        final(world).walls@.len() == 0,
        final(world).settings == old(world).settings,
        final(world).state == old(world).state,
        final(world).next_state == old(world).next_state,
        final(world).second_player == old(world).second_player,
        final(world).game_data == old(world).game_data,
        final(world).paddles@ == old(world).paddles@,
        final(world).ball == old(world).ball,
        final(world).match_timer == old(world).match_timer,
{
    world.walls = Vec::new();
}

/// Puts the two paddles into the world, the left one first. The right one
/// is the computer's if the computer is the opponent.
pub fn spawn_players(world: &mut World)
    requires
        old(world).wf(),
    ensures
        final(world).wf(),
        final(world).paddles@.len() == old(world).paddles@.len() + 2,
        final(world).paddles@.take(old(world).paddles@.len() as int) == old(world).paddles@,
        World::are_fresh_paddles(
            old(world).settings,
            old(world).second_player.opponent,
            final(world).paddles@.skip(old(world).paddles@.len() as int),
        ),
        final(world).settings == old(world).settings,
        final(world).state == old(world).state,
        final(world).next_state == old(world).next_state,
        final(world).second_player == old(world).second_player,
        final(world).game_data == old(world).game_data,
        final(world).walls@ == old(world).walls@,
        final(world).ball == old(world).ball,
        final(world).match_timer == old(world).match_timer,
{
    let main = PaddleEntity {
        player: Player::new_main(),
        ai: false,
        transform: Paddle::new_main_transform(&world.settings),
    };
    let second = match world.second_player.opponent {
        SecondPlayerType::Player => PaddleEntity {
            player: Player::new_second(),
            ai: false,
            transform: Paddle::new_second_transform(&world.settings),
        },
        SecondPlayerType::AI => PaddleEntity {
            player: Player::new_second(),
            ai: true,
            transform: Paddle::new_second_transform(&world.settings),
        },
    };
    world.paddles.push(main);
    world.paddles.push(second);
    proof {
        let count = old(world).paddles@.len() as int;
        assert(world.paddles@.take(count) == old(world).paddles@);
        assert(world.paddles@.skip(count)[0] == main);
        assert(world.paddles@.skip(count)[1] == second);
    }
}

/// Takes the paddles out of the world.
pub fn despawn_players(world: &mut World)
    ensures
        final(world).paddles@.len() == 0,
        final(world).settings == old(world).settings,
        final(world).state == old(world).state,
        final(world).next_state == old(world).next_state,
        final(world).second_player == old(world).second_player,
        final(world).game_data == old(world).game_data,
        final(world).walls@ == old(world).walls@,
        final(world).ball == old(world).ball,
        final(world).match_timer == old(world).match_timer,
{
    world.paddles = Vec::new();
}

/// Puts the ball into the world, at rest on the center.
pub fn spawn_ball(world: &mut World)
    ensures
        final(world).ball == Some(World::fresh_ball()),
        final(world).settings == old(world).settings,
        final(world).state == old(world).state,
        final(world).next_state == old(world).next_state,
        final(world).second_player == old(world).second_player,
        final(world).game_data == old(world).game_data,
        final(world).walls@ == old(world).walls@,
        final(world).paddles@ == old(world).paddles@,
        final(world).match_timer == old(world).match_timer,
        old(world).wf() ==> final(world).wf(),
{
    world.ball = Some(
        BallEntity {
            transform: Ball::initial_transform(),
            velocity: LinearVelocity(Vec2::zero()),
        },
    );
}

/// Takes the ball out of the world.
pub fn despawn_ball(world: &mut World)
    ensures
        final(world).ball is None,
        final(world).settings == old(world).settings,
        final(world).state == old(world).state,
        final(world).next_state == old(world).next_state,
        final(world).second_player == old(world).second_player,
        final(world).game_data == old(world).game_data,
        final(world).walls@ == old(world).walls@,
        final(world).paddles@ == old(world).paddles@,
        final(world).match_timer == old(world).match_timer,
{
    world.ball = None;
}

/// Whether a player holds the key or button for each way of a paddle.
#[derive(Clone, Copy, Debug, PartialEq, Eq, Structural)]
pub struct PaddleInput {
    pub up: bool,
    pub down: bool,
}

/// What the two players hold during a tick.
#[derive(Clone, Copy, Debug, PartialEq, Eq, Structural)]
pub struct TickInput {
    pub main: PaddleInput,
    pub second: PaddleInput,
}

impl TickInput {
    /// What the player of the seat `side` holds.
    pub open spec fn of(self, side: PlayerSide) -> PaddleInput {
        match side {
            PlayerSide::Main => self.main,
            PlayerSide::Other => self.second,
        }
    }

    /// What the player of the seat `side` holds.
    pub fn for_side(&self, side: PlayerSide) -> (input: PaddleInput)
        ensures
            input == self.of(side),
    {
        match side {
            PlayerSide::Main => self.main,
            PlayerSide::Other => self.second,
        }
    }
}

/// The numbers that chance gives to a tick: the coin for the first serve,
/// the vertical speed of a serve, and the number for the paddles.
#[derive(Clone, Copy, Debug, PartialEq, Eq, Structural)]
pub struct Draws {
    pub heads: bool,
    pub vertical: i32,
    pub spin: i32,
}

/// What a tick tells the observers of the match.
#[derive(Clone, Copy, Debug, PartialEq, Eq)]
pub struct TickEvents {
    /// The point that was scored in this tick.
    pub point: Option<PointMarked>,
    /// That the score changed in this tick.
    pub data_updated: Option<GameDataUpdated>,
}

impl TickEvents {
    /// Whether the tick has nothing to tell.
    pub open spec fn is_quiet(self) -> bool {
        self.point is None && self.data_updated is None
    }
}

impl World {
    /// Whether the steps of the simulation run: only while a match is
    /// running, not in the menu and not while it is paused.
    pub open spec fn is_playing(self) -> bool {
        GameActiveState::of(self.state) == Some(GameActiveState::Playing)
    }

    /// Whether the other world differs from this one at most in its paddles,
    /// its ball, its countdown and its score.
    pub open spec fn same_stage(self, after: World) -> bool {
        &&& after.settings == self.settings
        &&& after.state == self.state
        &&& after.next_state == self.next_state
        &&& after.second_player == self.second_player
        &&& after.walls@ == self.walls@
    }

    /// The boxes that the ball can hit: the walls, then the paddles.
    pub open spec fn colliders(walls: Seq<WallEntity>, paddles: Seq<PaddleEntity>) -> Seq<Collider> {
        Seq::new(
            walls.len() + paddles.len(),
            |i: int|
                if i < walls.len() {
                    Collider { transform: walls[i].transform, paddle: false }
                } else {
                    Collider { transform: paddles[i - walls.len()].transform, paddle: true }
                },
        )
    }

    /// A paddle after a tick: the computer's follows the ball, if there is
    /// one, a player's follows what the player of its seat holds.
    pub open spec fn paddle_after_tick(
        self,
        paddle: PaddleEntity,
        input: TickInput,
        micros: int,
    ) -> PaddleEntity {
        let y = paddle.transform.translation.y as int;
        let moved = if paddle.ai {
            match self.ball {
                Some(ball) => ai_steered(
                    self.settings,
                    y,
                    ball.transform.translation,
                    ball.velocity.0,
                    micros,
                ),
                None => y,
            }
        } else {
            steered(
                self.settings,
                y,
                input.of(paddle.player.side()).up,
                input.of(paddle.player.side()).down,
                micros,
            )
        };
        PaddleEntity {
            player: paddle.player,
            ai: paddle.ai,
            transform: Transform {
                translation: Vec2 { x: paddle.transform.translation.x, y: moved as i32 },
                scale: paddle.transform.scale,
            },
        }
    }

    /// The paddles after a tick.
    pub open spec fn paddles_after_tick(self, input: TickInput, micros: int) -> Seq<PaddleEntity> {
        Seq::new(
            self.paddles@.len(),
            |i: int| self.paddle_after_tick(self.paddles@[i], input, micros),
        )
    }

    /// The ball after the flight of a tick, before anyone looks whether it
    /// has left the arena. It meets the paddles where the tick has moved
    /// them to.
    pub open spec fn ball_after_flight(
        self,
        ball: BallEntity,
        input: TickInput,
        micros: int,
        spin: int,
    ) -> BallEntity {
        let flown = moved_ball(
            self.settings,
            ball.transform,
            ball.velocity,
            Self::colliders(self.walls@, self.paddles_after_tick(input, micros)),
            micros,
            spin,
        );
        BallEntity { transform: flown.0, velocity: flown.1 }
    }

    /// The range that the number for the paddles is drawn from, both ways:
    /// the horizontal speed that the ball has once the tick has made it
    /// faster.
    pub open spec fn spin_range(self, micros: int) -> int {
        match self.ball {
            Some(ball) => magnitude(sped_up(self.settings, ball.velocity.0.x as int, micros)),
            None => 0,
        }
    }

    /// What one tick of `micros` microseconds makes of the world.
    ///
    /// Outside a running match nothing happens. In one, the paddles move
    /// first. Then, while the countdown runs, it runs on, and when it has
    /// run down the ball is served; without a countdown the ball flies, and
    /// if it has then left the arena the point is told and counted, the ball
    /// is put back on the center at rest, and a new countdown begins.
    pub open spec fn ticked(
        self,
        input: TickInput,
        micros: int,
        draws: Draws,
        after: World,
        events: TickEvents,
    ) -> bool {
        if !self.is_playing() {
            &&& self.same_stage(after)
            &&& after.paddles@ == self.paddles@
            &&& after.ball == self.ball
            &&& after.game_data == self.game_data
            &&& after.match_timer == self.match_timer
            &&& events.is_quiet()
        } else {
            &&& self.same_stage(after)
            &&& after.paddles@ == self.paddles_after_tick(input, micros)
            &&& match (self.ball, self.match_timer) {
                (None, _) => {
                    &&& after.ball is None
                    &&& after.game_data == self.game_data
                    &&& after.match_timer == self.match_timer
                    &&& events.is_quiet()
                },
                (Some(ball), Some(timer)) => {
                    &&& after.game_data == self.game_data
                    &&& events.is_quiet()
                    &&& if timer.0@.tick(micros as nat).just_finished {
                        &&& after.match_timer is None
                        &&& after.ball == Some(
                            BallEntity {
                                transform: ball.transform,
                                velocity: LinearVelocity(
                                    Ball::served(
                                        self.settings,
                                        serve_direction(self.game_data.winner(), draws.heads),
                                        draws.vertical,
                                    ),
                                ),
                            },
                        )
                    } else {
                        &&& after.match_timer matches Some(running) && running.0@ == timer.0@.tick(
                            micros as nat,
                        )
                        &&& after.ball == Some(ball)
                    }
                },
                (Some(ball), None) => {
                    let flown = self.ball_after_flight(ball, input, micros, draws.spin as int);
                    if has_left_arena(self.settings, flown.transform.translation.x as int) {
                        let winner = scorer(flown.transform.translation.x as int);
                        &&& events.point == Some(PointMarked { winner })
                        &&& events.data_updated is Some
                        &&& after.ball == Some(
                            BallEntity {
                                transform: Transform {
                                    translation: Vec2 { x: 0, y: 0 },
                                    scale: flown.transform.scale,
                                },
                                velocity: LinearVelocity(Vec2 { x: 0, y: 0 }),
                            },
                        )
                        &&& self.game_data.scored(
                            winner.player(self.second_player.opponent),
                            after.game_data,
                        )
                        &&& after.match_timer matches Some(begun) && begun.0@ == (TimerView {
                            duration: self.settings.countdown_seconds as nat * 1_000_000,
                            elapsed: 0,
                            finished: false,
                            just_finished: false,
                        })
                    } else {
                        &&& events.is_quiet()
                        &&& after.ball == Some(flown)
                        &&& after.game_data == self.game_data
                        &&& after.match_timer is None
                    }
                },
            }
        }
    }

    /// The boxes that the ball can hit: the walls, then the paddles.
    pub fn collect_colliders(&self) -> (colliders: Vec<Collider>)
        requires
            self.wf(),
        ensures
            colliders@ == Self::colliders(self.walls@, self.paddles@),
            forall|i: int| 0 <= i < colliders.len() ==> (#[trigger] colliders[i]).transform.wf(),
    {
        let mut colliders: Vec<Collider> = Vec::new();
        let mut i: usize = 0;
        while i < self.walls.len()
            invariant
                0 <= i <= self.walls.len(),
                self.wf(),
                colliders@.len() == i,
                forall|k: int|
                    0 <= k < i ==> #[trigger] colliders@[k] == (Collider {
                        transform: self.walls@[k].transform,
                        paddle: false,
                    }),
            decreases self.walls.len() - i,
        {
            colliders.push(Collider { transform: self.walls[i].transform, paddle: false });
            i += 1;
        }
        let mut j: usize = 0;
        while j < self.paddles.len()
            invariant
                0 <= j <= self.paddles.len(),
                self.wf(),
                colliders@.len() == self.walls.len() + j,
                forall|k: int|
                    0 <= k < self.walls.len() ==> #[trigger] colliders@[k] == (Collider {
                        transform: self.walls@[k].transform,
                        paddle: false,
                    }),
                forall|k: int|
                    self.walls.len() <= k < self.walls.len() + j ==> #[trigger] colliders@[k] == (
                    Collider {
                        transform: self.paddles@[k - self.walls.len()].transform,
                        paddle: true,
                    }),
            decreases self.paddles.len() - j,
        {
            colliders.push(Collider { transform: self.paddles[j].transform, paddle: true });
            j += 1;
        }
        proof {
            assert(colliders@ =~= Self::colliders(self.walls@, self.paddles@));
        }
        colliders
    }

    /// Moves every paddle for one tick of `delta` microseconds.
    pub fn move_paddles(&mut self, input: &TickInput, delta: u32)
        requires
            old(self).wf(),
        ensures
            final(self).wf(),
            old(self).same_stage(*final(self)),
            final(self).paddles@ == old(self).paddles_after_tick(*input, delta as int),
            final(self).ball == old(self).ball,
            final(self).game_data == old(self).game_data,
            final(self).match_timer == old(self).match_timer,
    {
        let ghost before = *self;
        let mut i: usize = 0;
        while i < self.paddles.len()
            invariant
                0 <= i <= self.paddles.len(),
                before.wf(),
                self.wf(),
                before.same_stage(*self),
                self.ball == before.ball,
                self.game_data == before.game_data,
                self.match_timer == before.match_timer,
                self.paddles@.len() == before.paddles@.len(),
                forall|k: int|
                    0 <= k < i ==> #[trigger] self.paddles@[k] == before.paddle_after_tick(
                        before.paddles@[k],
                        *input,
                        delta as int,
                    ),
                forall|k: int|
                    i <= k < self.paddles@.len() ==> #[trigger] self.paddles@[k]
                        == before.paddles@[k],
            decreases self.paddles.len() - i,
        {
            let mut paddle = self.paddles[i];
            if paddle.ai {
                match self.ball {
                    Some(ball) => {
                        move_paddle_by_ai(
                            &self.settings,
                            &ball.transform,
                            &ball.velocity,
                            &mut paddle.transform,
                            delta,
                        );
                    },
                    None => {},
                }
            } else {
                let held = input.for_side(paddle.player.get_side());
                move_paddle_by_player(
                    &self.settings,
                    &mut paddle.transform,
                    held.up,
                    held.down,
                    delta,
                );
            }
            self.paddles.set(i, paddle);
            i += 1;
        }
        proof {
            assert(self.paddles@ =~= before.paddles_after_tick(*input, delta as int));
        }
    }

    /// Runs one tick of `delta` microseconds with the numbers of chance
    /// given.
    pub fn fixed_update_with(&mut self, input: &TickInput, delta: u32, draws: &Draws) -> (events:
        TickEvents)
        requires
            old(self).wf(),
            old(self).game_data.points(PlayerSide::Main) < u8::MAX,
            old(self).game_data.points(PlayerSide::Other) < u8::MAX,
        ensures
            final(self).wf(),
            old(self).ticked(*input, delta as int, *draws, *final(self), events),
    {
        let quiet = TickEvents { point: None, data_updated: None };
        match GameActiveState::compute(self.state) {
            Some(GameActiveState::Playing) => {},
            _ => {
                return quiet;
            },
        }
        self.move_paddles(input, delta);
        let mut ball = match self.ball {
            Some(ball) => ball,
            None => {
                return quiet;
            },
        };
        if self.match_timer.is_some() {
            start_match_with(
                &self.settings,
                &mut ball.velocity,
                &self.game_data,
                delta,
                &mut self.match_timer,
                draws.heads,
                draws.vertical,
            );
            self.ball = Some(ball);
            return quiet;
        }
        let colliders = self.collect_colliders();
        move_ball_with_spin(
            &self.settings,
            &mut ball.transform,
            &mut ball.velocity,
            &colliders,
            delta,
            draws.spin,
        );
        let point = check_ball_leaved_arena(&self.settings, &mut ball.transform, &mut ball.velocity);
        self.ball = Some(ball);
        match point {
            None => quiet,
            Some(marked) => {
                let mut point_events: Vec<PointMarked> = Vec::new();
                point_events.push(marked);
                proof {
                    assert(point_events@.drop_last().len() == 0);
                    assert(point_events@.last() == marked);
                    assert(points_for(point_events@.drop_last(), PlayerSide::Main) == 0);
                    assert(points_for(point_events@.drop_last(), PlayerSide::Other) == 0);
                    assert(points_for(point_events@, PlayerSide::Main) <= 1);
                    assert(points_for(point_events@, PlayerSide::Other) <= 1);
                }
                let updates = register_score_point(
                    &self.second_player,
                    &mut self.game_data,
                    &point_events,
                );
                init_match(&self.settings, &mut self.match_timer);
                TickEvents { point: Some(marked), data_updated: Some(updates[0]) }
            },
        }
    }

    /// Runs one tick of `delta` microseconds. The coin, the vertical speed of
    /// a serve, up to half the serve speed either way, and the number for
    /// the paddles are drawn.
    pub fn fixed_update(&mut self, input: &TickInput, delta: u32) -> (events: TickEvents)
        requires
            old(self).wf(),
            old(self).game_data.points(PlayerSide::Main) < u8::MAX,
            old(self).game_data.points(PlayerSide::Other) < u8::MAX,
        ensures
            final(self).wf(),
            exists|draws: Draws|
                {
                    &&& magnitude(draws.vertical as int) <= old(self).settings.ball_start_velocity
                        / 2
                    &&& magnitude(draws.spin as int) <= old(self).spin_range(delta as int)
                    &&& #[trigger] old(self).ticked(
                        *input,
                        delta as int,
                        draws,
                        *final(self),
                        events,
                    )
                },
    {
        let half = self.settings.ball_start_velocity / 2;
        let reach = match self.ball {
            Some(ball) => {
                let fastest = speed_up(&self.settings, ball.velocity.0.x, delta);
                if fastest < 0 {
                    -fastest
                } else {
                    fastest
                }
            },
            None => 0,
        };
        let draws = Draws {
            heads: random_bool(),
            vertical: random_in_range(-half, half),
            spin: random_in_range(-reach, reach),
        };
        self.fixed_update_with(input, delta, &draws)
    }
}

impl World {
    /// What holds of a match between its ticks: each paddle is inside the
    /// arena, the ball is not faster than the cap, and while the countdown
    /// runs the ball rests on the center.
    pub open spec fn steady(self) -> bool {
        &&& forall|i: int|
            0 <= i < self.paddles@.len() ==> Paddle::in_range(
                self.settings,
                (#[trigger] self.paddles@[i]).transform.translation.y as int,
            )
        &&& self.ball matches Some(ball) ==> {
            &&& Ball::within_cap(self.settings, ball.velocity.0)
            &&& self.match_timer is Some ==> ball.transform.translation == (Vec2 { x: 0, y: 0 })
                && ball.velocity.0 == (Vec2 { x: 0, y: 0 })
        }
    }
}

/// A match that was just set up in an empty world is steady.
pub proof fn lemma_fresh_match_is_steady(world: World)
    requires
        world.settings.wf(),
        World::are_fresh_paddles(world.settings, world.second_player.opponent, world.paddles@),
        world.ball == Some(World::fresh_ball()),
    ensures
        world.steady(),
{
}

/// A tick keeps a steady match steady: whatever the players hold and
/// whatever chance gives, afterwards the paddles are inside the arena, the
/// ball is not faster than the cap, and a ball that waits for the serve
/// rests on the center.
pub proof fn lemma_tick_keeps_match_steady(
    before: World,
    input: TickInput,
    micros: int,
    draws: Draws,
    after: World,
    events: TickEvents,
)
    requires
        before.settings.wf(),
        before.steady(),
        before.ticked(input, micros, draws, after, events),
    ensures
        after.steady(),
{
    if before.is_playing() {
        assert forall|i: int| 0 <= i < after.paddles@.len() implies Paddle::in_range(
            after.settings,
            (#[trigger] after.paddles@[i]).transform.translation.y as int,
        ) by {
            let paddle = before.paddles@[i];
            assert(after.paddles@[i] == before.paddle_after_tick(paddle, input, micros));
            assert(Paddle::in_range(before.settings, paddle.transform.translation.y as int));
        }
    } else {
        assert(after.paddles@ == before.paddles@);
    }
}

/// In a tick at most the ball, the paddles, the score and the countdown
/// change; a point is told exactly when the score changes, and then the
/// winner's seat has one point more and the countdown begins anew.
pub proof fn lemma_point_is_told_when_it_is_counted(
    before: World,
    input: TickInput,
    micros: int,
    draws: Draws,
    after: World,
    events: TickEvents,
)
    requires
        before.ticked(input, micros, draws, after, events),
    ensures
        before.same_stage(after),
        events.point is Some <==> events.data_updated is Some,
        events.point is None ==> after.game_data == before.game_data,
        events.point matches Some(point) ==> {
            &&& after.game_data.points(point.winner) == before.game_data.points(point.winner) + 1
            &&& after.game_data.winner() == Some(point.winner.player(before.second_player.opponent))
            &&& after.match_timer is Some
            &&& before.match_timer is None
            &&& before.is_playing()
        },
{
}

} // verus!
