//! The simulation loop driver: one world object owns the paddle, the
//! ball and the round, and advances them one tick at a time in a
//! fixed order — paddle movement, ball integration, wall resolution,
//! paddle resolution, the exhaustive brick pass, and the
//! victory/game-over evaluation with its full restart. The embedding
//! application samples input, measures the elapsed time, calls
//! `tick`, and renders the exposed state.

use vstd::prelude::*;

verus! {

use crate::bricks::lemma_count_active_bounds;
use crate::bricks::Brick;
use crate::bricks::BRICK_COLUMN_COUNT;
use crate::bricks::BRICK_ROW_COUNT;
use crate::game::ball_after_update;
use crate::game::ball_reset_spec;
use crate::game::start_ball;
use crate::game::start_paddle;
use crate::game::step_travel;
use crate::game::update_ball_position;
use crate::game::Ball;
use crate::game::Paddle;
use crate::game::BALL_HEIGHT;
use crate::game::BALL_WIDTH;
use crate::game::PADDLE_SPEED_X;
use crate::game::SCORE_MULTIPLIER;
use crate::game::STARTING_PLAYER_LIVES;
use crate::geometry::lemma_pixel_of_bounded;
use crate::geometry::pixel_of;
use crate::geometry::Rect;
use crate::geometry::Vector2;
use crate::physics::ball_after_paddle;
use crate::physics::ball_after_walls;
use crate::physics::bricks_outcome;
use crate::physics::check_for_collisions;
use crate::physics::clamped_paddle_x;
use crate::physics::lives_after_walls;
use crate::physics::resolve_ball_paddle_collisions;
use crate::physics::resolve_ball_wall_collisions;
use crate::round::check_victory;
use crate::round::restart_round;
use crate::round::GameplayState;
use crate::round::GameRound;
use crate::ELAPSED_LIMIT;

/// The whole simulation state for one frame: no mutable state exists
/// outside it, and `tick` is its sole mutator.
pub struct World {
    /// The player-controlled paddle.
    pub paddle: Paddle,
    /// The moving ball.
    pub ball: Ball,
    /// Lives, score and the brick grid.
    pub round: GameRound,
    /// Whether the ball advances this tick.
    pub state: GameplayState,
}

/// A paddle shifted horizontally by a milli-pixel delta; the screen
/// rectangle is not touched until the clamp re-derives it.
pub open spec fn paddle_moved(p: Paddle, dx: int) -> Paddle {
    Paddle {
        position: Vector2 { x: (p.position.x + dx) as i64, y: p.position.y },
        rect: p.rect,
    }
}

/// A paddle clamped into the playfield with its rectangle re-derived
/// from the clamped position.
pub open spec fn paddle_clamped(p: Paddle) -> Paddle {
    let cx = clamped_paddle_x(p.position.x as int, p.rect.width);
    Paddle {
        position: Vector2 { x: cx as i64, y: p.position.y },
        rect: Rect { x: pixel_of(cx) as i64, y: p.rect.y, width: p.rect.width, height: p.rect.height },
    }
}

/// The paddle after one tick of input: a left intent moves it left by
/// the paddle speed scaled with the elapsed time and clamps, then a
/// right intent does the same to the right; both together cancel out
/// up to the clamping.
pub open spec fn paddle_after_input(
    p: Paddle,
    move_left: bool,
    move_right: bool,
    elapsed_ms: int,
) -> Paddle {
    let p1 = if move_left {
        paddle_clamped(paddle_moved(p, -(PADDLE_SPEED_X * elapsed_ms)))
    } else {
        p
    };
    if move_right {
        paddle_clamped(paddle_moved(p1, PADDLE_SPEED_X * elapsed_ms))
    } else {
        p1
    }
}

/// Every brick switched back on, rectangles untouched.
pub open spec fn bricks_all_active(s: Seq<Brick>) -> Seq<Brick> {
    Seq::new(s.len(), |i: int| Brick { rect: s[i].rect, active: true })
}

/// The exact relation between the world before and after one tick.
/// The paddle always follows the input. When the simulation is in its
/// normal state the ball is integrated over the elapsed time, then
/// resolved against the walls (a bottom miss costs a life and resets
/// the ball), the paddle, and every brick in row-major order; if that
/// leaves the player out of lives or the grid empty, the round
/// restarts in full. In the frozen state the ball and the round are
/// untouched.
pub open spec fn tick_rel(
    pre: World,
    post: World,
    move_left: bool,
    move_right: bool,
    elapsed_ms: int,
) -> bool {
    let paddle1 = paddle_after_input(pre.paddle, move_left, move_right, elapsed_ms);
    if pre.state == GameplayState::Normal {
        let b1 = ball_after_update(pre.ball, elapsed_ms);
        let b2 = ball_after_walls(b1);
        let lives1 = lives_after_walls(b1, pre.round.lives as int);
        let b3 = ball_after_paddle(b2, paddle1.rect);
        let fold = bricks_outcome(b3, pre.round.bricks@);
        let count1 = pre.round.brick_count - fold.2;
        let destroyed1 = pre.round.bricks_destroyed + fold.2;
        if lives1 == 0 || count1 == 0 {
            &&& post.paddle == paddle1
            &&& post.ball == ball_reset_spec(fold.0)
            &&& post.round.lives == STARTING_PLAYER_LIVES
            &&& post.round.bricks_destroyed == 0
            &&& post.round.brick_count == BRICK_ROW_COUNT * BRICK_COLUMN_COUNT
            &&& post.round.bricks@ == bricks_all_active(fold.1)
            &&& post.state == pre.state
        } else {
            &&& post.paddle == paddle1
            &&& post.ball == fold.0
            &&& post.round.lives == lives1
            &&& post.round.brick_count == count1
            &&& post.round.bricks_destroyed == destroyed1
            &&& post.round.bricks@ == fold.1
            &&& post.state == pre.state
        }
    } else {
        &&& post.paddle == paddle1
        &&& post.ball == pre.ball
        &&& post.round.lives == pre.round.lives
        &&& post.round.bricks_destroyed == pre.round.bricks_destroyed
        &&& post.round.brick_count == pre.round.brick_count
        &&& post.round.bricks@ == pre.round.bricks@
        &&& post.state == pre.state
    }
}

impl World {
    /// A world the driver accepts: every part internally consistent,
    /// the ball inside the field with its fixed extent, and at least
    /// one life left (a round at zero lives has already restarted).
    pub open spec fn wf(self) -> bool {
        &&& self.ball.wf()
        &&& self.ball.in_field()
        &&& self.ball.rect.width == BALL_WIDTH
        &&& self.ball.rect.height == BALL_HEIGHT
        &&& self.paddle.wf()
        &&& self.round.wf()
        &&& 1 <= self.round.lives
    }

    /// A fresh world: entities at their start constants, a full grid,
    /// and the simulation in its normal state.
    pub fn new() -> (w: World)
        ensures
            w.wf(),
            w.paddle == start_paddle(),
            w.ball == start_ball(),
            w.state == GameplayState::Normal,
            w.round.lives == STARTING_PLAYER_LIVES,
            w.round.bricks_destroyed == 0,
            w.round.brick_count == BRICK_ROW_COUNT * BRICK_COLUMN_COUNT,
            forall|i: int| 0 <= i < w.round.bricks@.len() ==> #[trigger] w.round.bricks@[i].active,
    {
        World {
            paddle: Paddle::new(),
            ball: Ball::new(),
            round: GameRound::new(),
            state: GameplayState::Normal,
        }
    }

    /// Advance the simulation by one tick: apply the input intents to
    /// the paddle, and — unless the ball is frozen — integrate the
    /// ball over the measured elapsed time, resolve every collision
    /// in fixed order, and restart the round on victory or game over.
    pub fn tick(&mut self, move_left: bool, move_right: bool, elapsed_ms: u32)
        requires
            old(self).wf(),
            elapsed_ms <= ELAPSED_LIMIT,
        ensures
            final(self).wf(),
            tick_rel(*old(self), *final(self), move_left, move_right, elapsed_ms as int),
    {
        if move_left {
            let dx = step_travel(PADDLE_SPEED_X, elapsed_ms);
            self.paddle.position.x = self.paddle.position.x - dx;
            check_for_collisions(&mut self.paddle);
        }
        if move_right {
            let dx = step_travel(PADDLE_SPEED_X, elapsed_ms);
            self.paddle.position.x = self.paddle.position.x + dx;
            check_for_collisions(&mut self.paddle);
        }
        let ghost paddle1 = paddle_after_input(
            old(self).paddle,
            move_left,
            move_right,
            elapsed_ms as int,
        );
        assert(self.paddle == paddle1);
        proof {
            lemma_pixel_of_bounded(self.paddle.position.x as int);
            lemma_pixel_of_bounded(self.paddle.position.y as int);
        }
        if self.state == GameplayState::Normal {
            update_ball_position(&mut self.ball, elapsed_ms);
            resolve_ball_wall_collisions(&mut self.ball, &mut self.round.lives);
            resolve_ball_paddle_collisions(&mut self.ball, &self.paddle);
            self.round.resolve_bricks(&mut self.ball);
            if check_victory(self.round.lives, self.round.brick_count) {
                restart_round(&mut self.round, &mut self.ball);
                proof {
                    let fold = bricks_outcome(
                        ball_after_paddle(
                            ball_after_walls(ball_after_update(old(self).ball, elapsed_ms as int)),
                            paddle1.rect,
                        ),
                        old(self).round.bricks@,
                    );
                    assert(self.round.bricks@ =~= bricks_all_active(fold.1));
                }
            }
        }
    }

    /// The score shown to the player: destroyed bricks times the
    /// score multiplier.
    pub fn score(&self) -> (s: i32)
        requires
            self.wf(),
        ensures
            s == self.round.bricks_destroyed * SCORE_MULTIPLIER,
    {
        proof {
            lemma_count_active_bounds(self.round.bricks@);
        }
        self.round.bricks_destroyed * SCORE_MULTIPLIER
    }

    /// Freeze or unfreeze the ball; reserved for pre-launch or pause
    /// semantics driven by the embedding application.
    pub fn set_gameplay_state(&mut self, state: GameplayState)
        requires
            old(self).wf(),
        ensures
            final(self).wf(),
            final(self).state == state,
            final(self).paddle == old(self).paddle,
            final(self).ball == old(self).ball,
            final(self).round.lives == old(self).round.lives,
            final(self).round.bricks_destroyed == old(self).round.bricks_destroyed,
            final(self).round.brick_count == old(self).round.brick_count,
            final(self).round.bricks@ == old(self).round.bricks@,
    {
        self.state = state;
    }
}

} // verus!

