//! Game entities and their start-of-round constants: the ball and the
//! paddle, each an authoritative continuous position plus a screen
//! rectangle derived from it by truncation.

use vstd::prelude::*;

verus! {

use crate::geometry::Rect;
use crate::geometry::Vector2;
use crate::geometry::pixel_of;
use crate::geometry::rect_tracks;
use crate::geometry::to_pixel;
use crate::ELAPSED_LIMIT;
use crate::MILLI_PER_PIXEL;
use crate::POSITION_LIMIT;
use crate::SPEED_LIMIT;
use crate::STEP_LIMIT;
use crate::WINDOW_HEIGHT;
use crate::WINDOW_WIDTH;

/// Lives a player has at the start of a round.
pub const STARTING_PLAYER_LIVES: i32 = 3;

/// Start position of the ball, in pixels.
pub const BALL_START_POSITION_X: i64 = 50;

/// Start position of the ball, in pixels.
pub const BALL_START_POSITION_Y: i64 = 450;

/// Start speed of the ball, in pixels per second.
pub const BALL_START_SPEED_X: i64 = 150;

/// Start speed of the ball, in pixels per second.
pub const BALL_START_SPEED_Y: i64 = -150;

/// Extent of the ball's rectangle, in pixels.
pub const BALL_WIDTH: u32 = 8;

/// Extent of the ball's rectangle, in pixels.
pub const BALL_HEIGHT: u32 = 8;

/// Start position of the paddle, in pixels.
pub const PADDLE_START_X: i64 = 50;

/// Start position of the paddle, in pixels; the paddle never leaves
/// this horizontal lane.
pub const PADDLE_START_Y: i64 = 530;

/// Extent of the paddle's rectangle, in pixels.
pub const PADDLE_WIDTH: u32 = 62;

/// Extent of the paddle's rectangle, in pixels.
pub const PADDLE_HEIGHT: u32 = 12;

/// Paddle movement speed, in pixels per second.
pub const PADDLE_SPEED_X: i64 = 600;

/// Points awarded per destroyed brick.
pub const SCORE_MULTIPLIER: i32 = 10;

/// The moving ball: continuous position and speed, plus the screen
/// rectangle derived from the position each tick.
#[derive(Clone, Copy, Debug, PartialEq, Eq, Structural)]
pub struct Ball {
    /// Continuous position of the top-left corner, in milli-pixels.
    pub position: Vector2,
    /// Speed in pixels per second; constant magnitude per axis, only
    /// the sign changes on a bounce.
    pub speed: Vector2,
    /// Screen rectangle derived from `position` by truncation.
    pub rect: Rect,
}

/// The player-controlled paddle: continuous position plus the screen
/// rectangle derived from it.
#[derive(Clone, Copy, Debug, PartialEq, Eq, Structural)]
pub struct Paddle {
    /// Continuous position of the top-left corner, in milli-pixels.
    pub position: Vector2,
    /// Screen rectangle derived from `position` by truncation.
    pub rect: Rect,
}

impl Ball {
    /// The screen rectangle is the truncation of the continuous
    /// position.
    pub open spec fn tracks(self) -> bool {
        rect_tracks(self.rect, self.position)
    }

    /// Speed components small enough that sign flips and one tick of
    /// travel never overflow.
    pub open spec fn speed_bounded(self) -> bool {
        &&& -SPEED_LIMIT <= self.speed.x <= SPEED_LIMIT
        &&& -SPEED_LIMIT <= self.speed.y <= SPEED_LIMIT
    }

    /// Position within the range the collision engine accepts; wide
    /// enough to cover one tick of travel from anywhere in the
    /// playfield and far beyond.
    pub open spec fn position_in_range(self) -> bool {
        &&& -(POSITION_LIMIT + STEP_LIMIT) <= self.position.x <= POSITION_LIMIT + STEP_LIMIT
        &&& -(POSITION_LIMIT + STEP_LIMIT) <= self.position.y <= POSITION_LIMIT + STEP_LIMIT
    }

    /// A ball the collision engine accepts.
    pub open spec fn wf(self) -> bool {
        &&& self.tracks()
        &&& self.speed_bounded()
        &&& self.position_in_range()
    }

    /// A ball whose rectangle fits the playfield on both axes, give
    /// or take the sub-pixel remainder truncation hides; wall
    /// resolution re-establishes this after every tick.
    pub open spec fn in_field(self) -> bool {
        &&& -MILLI_PER_PIXEL < self.position.x
        &&& self.rect.spec_right() <= WINDOW_WIDTH
        &&& -MILLI_PER_PIXEL < self.position.y
        &&& self.rect.spec_bottom() <= WINDOW_HEIGHT
    }

    /// Fresh ball at the start constants.
    pub fn new() -> (b: Ball)
        ensures
            b == start_ball(),
            b.wf(),
            b.in_field(),
    {
        let b = Ball {
            position: Vector2 {
                x: BALL_START_POSITION_X * MILLI_PER_PIXEL,
                y: BALL_START_POSITION_Y * MILLI_PER_PIXEL,
            },
            speed: Vector2 { x: BALL_START_SPEED_X, y: BALL_START_SPEED_Y },
            rect: Rect {
                x: BALL_START_POSITION_X,
                y: BALL_START_POSITION_Y,
                width: BALL_WIDTH,
                height: BALL_HEIGHT,
            },
        };
        assert(pixel_of(b.position.x as int) == BALL_START_POSITION_X);
        assert(pixel_of(b.position.y as int) == BALL_START_POSITION_Y);
        b
    }
}

impl Paddle {
    /// The screen rectangle is the truncation of the continuous
    /// position.
    pub open spec fn tracks(self) -> bool {
        rect_tracks(self.rect, self.position)
    }

    /// A paddle the engine accepts: tracked rectangle, pinned to its
    /// horizontal lane, position within the clamped range.
    pub open spec fn wf(self) -> bool {
        &&& self.tracks()
        &&& self.position.y == PADDLE_START_Y * MILLI_PER_PIXEL
        &&& self.rect.width == PADDLE_WIDTH
        &&& self.rect.height == PADDLE_HEIGHT
        &&& 0 <= self.position.x <= (WINDOW_WIDTH - PADDLE_WIDTH) * MILLI_PER_PIXEL
    }

    /// Fresh paddle at the start constants.
    pub fn new() -> (p: Paddle)
        ensures
            p == start_paddle(),
            p.wf(),
    {
        let p = Paddle {
            position: Vector2 {
                x: PADDLE_START_X * MILLI_PER_PIXEL,
                y: PADDLE_START_Y * MILLI_PER_PIXEL,
            },
            rect: Rect {
                x: PADDLE_START_X,
                y: PADDLE_START_Y,
                width: PADDLE_WIDTH,
                height: PADDLE_HEIGHT,
            },
        };
        assert(pixel_of(p.position.x as int) == PADDLE_START_X);
        assert(pixel_of(p.position.y as int) == PADDLE_START_Y);
        p
    }
}

/// The ball state every round starts from.
pub open spec fn start_ball() -> Ball {
    Ball {
        position: Vector2 {
            x: (BALL_START_POSITION_X * MILLI_PER_PIXEL) as i64,
            y: (BALL_START_POSITION_Y * MILLI_PER_PIXEL) as i64,
        },
        speed: Vector2 { x: BALL_START_SPEED_X, y: BALL_START_SPEED_Y },
        rect: Rect {
            x: BALL_START_POSITION_X,
            y: BALL_START_POSITION_Y,
            width: BALL_WIDTH,
            height: BALL_HEIGHT,
        },
    }
}

/// The paddle state every round starts from.
pub open spec fn start_paddle() -> Paddle {
    Paddle {
        position: Vector2 {
            x: (PADDLE_START_X * MILLI_PER_PIXEL) as i64,
            y: (PADDLE_START_Y * MILLI_PER_PIXEL) as i64,
        },
        rect: Rect {
            x: PADDLE_START_X,
            y: PADDLE_START_Y,
            width: PADDLE_WIDTH,
            height: PADDLE_HEIGHT,
        },
    }
}

/// A ball put back at the start constants; only the rectangle's
/// extent is carried over.
pub open spec fn ball_reset_spec(b: Ball) -> Ball {
    Ball {
        position: Vector2 {
            x: (BALL_START_POSITION_X * MILLI_PER_PIXEL) as i64,
            y: (BALL_START_POSITION_Y * MILLI_PER_PIXEL) as i64,
        },
        speed: Vector2 { x: BALL_START_SPEED_X, y: BALL_START_SPEED_Y },
        rect: Rect {
            x: BALL_START_POSITION_X,
            y: BALL_START_POSITION_Y,
            width: b.rect.width,
            height: b.rect.height,
        },
    }
}

/// Put the ball back at its start position and speed.
pub fn reset_ball(ball: &mut Ball)
    ensures
        *final(ball) == ball_reset_spec(*old(ball)),
        final(ball).tracks(),
{
    ball.position.x = BALL_START_POSITION_X * MILLI_PER_PIXEL;
    ball.position.y = BALL_START_POSITION_Y * MILLI_PER_PIXEL;
    ball.rect.x = BALL_START_POSITION_X;
    ball.rect.y = BALL_START_POSITION_Y;
    ball.speed.x = BALL_START_SPEED_X;
    ball.speed.y = BALL_START_SPEED_Y;
    assert(pixel_of(ball.position.x as int) == BALL_START_POSITION_X);
    assert(pixel_of(ball.position.y as int) == BALL_START_POSITION_Y);
}

/// The ball one integration step later: the position advanced by
/// `speed * elapsed_ms` (pixels per second times milliseconds lands
/// in milli-pixels) and the rectangle re-derived from it.
pub open spec fn ball_after_update(b: Ball, elapsed_ms: int) -> Ball {
    let px = b.position.x + b.speed.x * elapsed_ms;
    let py = b.position.y + b.speed.y * elapsed_ms;
    Ball {
        position: Vector2 { x: px as i64, y: py as i64 },
        speed: b.speed,
        rect: Rect {
            x: pixel_of(px) as i64,
            y: pixel_of(py) as i64,
            width: b.rect.width,
            height: b.rect.height,
        },
    }
}

/// Advance the ball by its speed scaled with the elapsed time and
/// re-derive its screen rectangle; measured elapsed time must be
/// passed in, the step is not assumed periodic.
pub fn update_ball_position(ball: &mut Ball, elapsed_ms: u32)
    requires
        old(ball).tracks(),
        old(ball).speed_bounded(),
        -POSITION_LIMIT <= old(ball).position.x <= POSITION_LIMIT,
        -POSITION_LIMIT <= old(ball).position.y <= POSITION_LIMIT,
        elapsed_ms <= ELAPSED_LIMIT,
    ensures
        *final(ball) == ball_after_update(*old(ball), elapsed_ms as int),
        final(ball).wf(),
{
    let dx = step_travel(ball.speed.x, elapsed_ms);
    let dy = step_travel(ball.speed.y, elapsed_ms);
    ball.position.x = ball.position.x + dx;
    ball.rect.x = to_pixel(ball.position.x);
    ball.position.y = ball.position.y + dy;
    ball.rect.y = to_pixel(ball.position.y);
}

/// Travel in milli-pixels over one step: speed times elapsed time.
pub(crate) fn step_travel(speed: i64, elapsed_ms: u32) -> (d: i64)
    requires
        -SPEED_LIMIT <= speed <= SPEED_LIMIT,
        elapsed_ms <= ELAPSED_LIMIT,
    ensures
        d == speed * elapsed_ms,
        -STEP_LIMIT <= d <= STEP_LIMIT,
{
    proof {
        assert(-10_000_000_000 <= speed * elapsed_ms <= 10_000_000_000) by (nonlinear_arith)
            requires
                -1_000_000 <= speed <= 1_000_000,
                0 <= elapsed_ms <= 10_000,
        ;
    }
    speed * (elapsed_ms as i64)
}

} // verus!
