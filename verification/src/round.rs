//! The round state machine: lives, score bookkeeping, the brick grid
//! that belongs to the round, victory/game-over evaluation and the
//! full round restart.

use vstd::prelude::*;

verus! {

use crate::bricks::count_active;
use crate::bricks::grid_brick;
use crate::bricks::initialize_grid;
use crate::bricks::lemma_count_active_all;
use crate::bricks::lemma_count_active_bounds;
use crate::bricks::reset_all;
use crate::bricks::Brick;
use crate::bricks::BRICK_BOARD_START_X;
use crate::bricks::BRICK_BOARD_START_Y;
use crate::bricks::BRICK_COLUMN_COUNT;
use crate::bricks::BRICK_HEIGHT;
use crate::bricks::BRICK_OFFSET_X;
use crate::bricks::BRICK_OFFSET_Y;
use crate::bricks::BRICK_ROW_COUNT;
use crate::bricks::BRICK_WIDTH;
use crate::game::ball_reset_spec;
use crate::game::reset_ball;
use crate::game::Ball;
use crate::game::STARTING_PLAYER_LIVES;
use crate::geometry::coords_bounded;
use crate::physics::bricks_outcome;
use crate::physics::lemma_bricks_outcome_props;
use crate::physics::resolve_ball_brick_collisions;

/// Whether the simulation is advancing the ball or holding it still;
/// the frozen state is reserved for pre-launch or pause semantics and
/// its transition is left to the embedding application.
#[derive(Clone, Copy, Debug, PartialEq, Eq, Structural)]
pub enum GameplayState {
    /// The ball moves and physics is active.
    Normal,
    /// The ball does not move.
    BallFrozen,
}

/// One round of play: the lives that remain, the score bookkeeping,
/// and the brick grid with its standing-brick count.
pub struct GameRound {
    /// Lives left; a bottom-wall miss costs one.
    pub lives: i32,
    /// Bricks destroyed so far this round, accumulated for scoring.
    pub bricks_destroyed: i32,
    /// Bricks still standing.
    pub brick_count: i32,
    /// The grid, row-major; cells are recycled via their `active`
    /// flag and never reallocated.
    pub bricks: Vec<Brick>,
}

impl GameRound {
    /// Internal consistency of a round: the grid has its fixed size,
    /// the standing count really counts the standing bricks, the
    /// destroyed count is its complement, lives stay within their
    /// range, and every brick's rectangle is within the engine's
    /// working range.
    pub open spec fn wf(self) -> bool {
        &&& self.bricks@.len() == BRICK_ROW_COUNT * BRICK_COLUMN_COUNT
        &&& self.brick_count == count_active(self.bricks@)
        &&& self.bricks_destroyed == self.bricks@.len() - self.brick_count
        &&& 0 <= self.lives <= STARTING_PLAYER_LIVES
        &&& forall|i: int|
            0 <= i < self.bricks@.len() ==> coords_bounded(#[trigger] self.bricks@[i].rect)
    }

    /// A fresh round: full lives, no score, and the grid laid out at
    /// its fixed positions with every brick standing.
    pub fn new() -> (r: GameRound)
        ensures
            r.wf(),
            r.lives == STARTING_PLAYER_LIVES,
            r.bricks_destroyed == 0,
            r.brick_count == BRICK_ROW_COUNT * BRICK_COLUMN_COUNT,
            r.bricks@.len() == BRICK_ROW_COUNT * BRICK_COLUMN_COUNT,
            forall|i: int|
                0 <= i < r.bricks@.len() ==> #[trigger] r.bricks@[i] == grid_brick(
                    i / (BRICK_COLUMN_COUNT as int),
                    i % (BRICK_COLUMN_COUNT as int),
                    BRICK_WIDTH,
                    BRICK_HEIGHT,
                    BRICK_OFFSET_X,
                    BRICK_OFFSET_Y,
                    BRICK_BOARD_START_X,
                    BRICK_BOARD_START_Y,
                ),
    {
        let bricks = initialize_grid(
            BRICK_ROW_COUNT,
            BRICK_COLUMN_COUNT,
            BRICK_WIDTH,
            BRICK_HEIGHT,
            BRICK_OFFSET_X,
            BRICK_OFFSET_Y,
            BRICK_BOARD_START_X,
            BRICK_BOARD_START_Y,
        );
        proof {
            lemma_count_active_all(bricks@);
        }
        GameRound {
            lives: STARTING_PLAYER_LIVES,
            bricks_destroyed: 0,
            brick_count: (BRICK_ROW_COUNT * BRICK_COLUMN_COUNT) as i32,
            bricks,
        }
    }

    /// Resolve the ball against every brick of the grid, in row-major
    /// order, each brick seeing the speed the previous tests left;
    /// there is no spatial index, the check is exhaustive.
    pub fn resolve_bricks(&mut self, ball: &mut Ball)
        requires
            old(self).wf(),
            old(ball).wf(),
        ensures
            final(self).wf(),
            final(ball).wf(),
            *final(ball) == bricks_outcome(*old(ball), old(self).bricks@).0,
            final(self).bricks@ == bricks_outcome(*old(ball), old(self).bricks@).1,
            final(self).brick_count == old(self).brick_count - bricks_outcome(
                *old(ball),
                old(self).bricks@,
            ).2,
            final(self).bricks_destroyed == old(self).bricks_destroyed + bricks_outcome(
                *old(ball),
                old(self).bricks@,
            ).2,
            final(self).lives == old(self).lives,
            final(ball).position == old(ball).position,
            final(ball).rect == old(ball).rect,
    {
        let ghost bricks0 = self.bricks@;
        let ghost total = bricks_outcome(*ball, bricks0);
        proof {
            lemma_bricks_outcome_props(*ball, bricks0);
            lemma_count_active_bounds(bricks0);
            assert(bricks0.subrange(0, bricks0.len() as int) =~= bricks0);
            assert(total.1.subrange(0, total.1.len() as int) =~= total.1);
        }
        let n: usize = self.bricks.len();
        let mut i: usize = 0;
        while i < n
            invariant
                0 <= i <= n,
                n == bricks0.len(),
                self.bricks@.len() == n,
                n == BRICK_ROW_COUNT * BRICK_COLUMN_COUNT,
                total == bricks_outcome(*old(ball), bricks0),
                bricks0 == old(self).bricks@,
                old(self).wf(),
                ball.wf(),
                ball.position == old(ball).position,
                ball.rect == old(ball).rect,
                forall|j: int| i <= j < n ==> self.bricks@[j] == bricks0[j],
                forall|j: int| 0 <= j < i ==> self.bricks@[j] == total.1[j],
                bricks_outcome(*ball, bricks0.subrange(i as int, n as int)).0 == total.0,
                bricks_outcome(*ball, bricks0.subrange(i as int, n as int)).1 == total.1.subrange(
                    i as int,
                    n as int,
                ),
                0 <= total.2 - bricks_outcome(*ball, bricks0.subrange(i as int, n as int)).2 <= i,
                self.brick_count == old(self).brick_count - (total.2 - bricks_outcome(
                    *ball,
                    bricks0.subrange(i as int, n as int),
                ).2),
                self.bricks_destroyed == old(self).bricks_destroyed + (total.2 - bricks_outcome(
                    *ball,
                    bricks0.subrange(i as int, n as int),
                ).2),
                self.lives == old(self).lives,
                old(self).bricks_destroyed <= n,
                total.1.len() == n,
                0 <= total.2 <= n,
            decreases n - i,
        {
            let ghost suffix = bricks0.subrange(i as int, n as int);
            let ghost fold_here = bricks_outcome(*ball, suffix);
            proof {
                assert(suffix.len() == n - i);
                assert(suffix[0] == bricks0[i as int]);
                assert(suffix.skip(1) =~= bricks0.subrange(i as int + 1, n as int));
                lemma_bricks_outcome_props(*ball, suffix);
            }
            let mut cell = self.bricks[i];
            resolve_ball_brick_collisions(ball, &mut cell, &mut self.brick_count, &mut self.bricks_destroyed);
            self.bricks.set(i, cell);
            proof {
                assert(fold_here.1[0] == total.1.subrange(i as int, n as int)[0]);
                assert(fold_here.1[0] == cell);
                assert(fold_here.1.skip(1) =~= bricks_outcome(
                    *ball,
                    bricks0.subrange(i as int + 1, n as int),
                ).1);
                assert(total.1.subrange(i as int, n as int).skip(1) =~= total.1.subrange(
                    i as int + 1,
                    n as int,
                ));
            }
            i = i + 1;
        }
        proof {
            assert(bricks0.subrange(n as int, n as int) =~= Seq::<Brick>::empty());
            assert(self.bricks@ =~= total.1);
            lemma_bricks_outcome_props(*old(ball), bricks0);
        }
    }
}

/// Whether the round is over: the player is out of lives (game over)
/// or no brick stands (victory). Both conditions trigger the same
/// restart behaviour; which message to surface is left to the
/// embedding application.
pub fn check_victory(player_lives: i32, brick_count: i32) -> (needs_restart: bool)
    ensures
        needs_restart == (player_lives == 0 || brick_count == 0),
{
    let mut needs_restart = false;
    if player_lives == 0 {
        needs_restart = true;
    }
    if brick_count == 0 {
        needs_restart = true;
    }
    needs_restart
}

/// Restart the round in full: lives back to the starting constant,
/// score to zero, every brick standing again (the layout is
/// untouched), and the ball back at its start position and speed.
pub fn restart_round(round: &mut GameRound, ball: &mut Ball)
    requires
        old(round).wf(),
    ensures
        final(round).wf(),
        final(round).lives == STARTING_PLAYER_LIVES,
        final(round).bricks_destroyed == 0,
        final(round).brick_count == BRICK_ROW_COUNT * BRICK_COLUMN_COUNT,
        final(round).bricks@.len() == old(round).bricks@.len(),
        forall|i: int|
            0 <= i < old(round).bricks@.len() ==> #[trigger] final(round).bricks@[i] == (Brick {
                rect: old(round).bricks@[i].rect,
                active: true,
            }),
        *final(ball) == ball_reset_spec(*old(ball)),
{
    round.lives = STARTING_PLAYER_LIVES;
    round.bricks_destroyed = 0;
    reset_all(&mut round.bricks);
    round.brick_count = (BRICK_ROW_COUNT * BRICK_COLUMN_COUNT) as i32;
    reset_ball(ball);
    proof {
        lemma_count_active_all(round.bricks@);
    }
}

} // verus!
