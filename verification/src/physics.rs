//! The collision/physics engine: paddle bounds clamping, ball-wall
//! bouncing (with life loss on a bottom miss), ball-paddle bouncing,
//! and ball-brick bouncing with brick destruction. Every resolver
//! mutates the passed-in state in place, and its exact outcome is
//! stated by a matching specification function.

use vstd::prelude::*;

verus! {

use crate::bricks::count_active;
use crate::bricks::lemma_count_active_bounds;
use crate::bricks::Brick;
use crate::game::Ball;
use crate::game::Paddle;
use crate::game::ball_reset_spec;
use crate::game::reset_ball;
use crate::geometry::coords_bounded;
use crate::geometry::lemma_pixel_of_bounded;
use crate::geometry::lemma_pixel_of_range;
use crate::geometry::lemma_pixel_of_whole;
use crate::geometry::pixel_of;
use crate::geometry::to_pixel;
use crate::geometry::Rect;
use crate::geometry::Vector2;
use crate::MILLI_PER_PIXEL;
use crate::POSITION_LIMIT;
use crate::STEP_LIMIT;
use crate::WINDOW_HEIGHT;
use crate::WINDOW_WIDTH;

/// The paddle position after clamping to the playfield: pushed up to
/// zero from the left, down to `field width - paddle width` from the
/// right, in milli-pixels; a position already inside is unchanged.
pub open spec fn clamped_paddle_x(x: int, width: u32) -> int {
    let max = (WINDOW_WIDTH - width) * MILLI_PER_PIXEL;
    let x1: int = if x < 0 {
        0
    } else {
        x
    };
    if x1 > max {
        max
    } else {
        x1
    }
}

/// Clamp the paddle into the playfield's horizontal lane and re-derive
/// its screen rectangle. A position outside `[0, field width - paddle
/// width]` lands on the nearer end of that range; one inside is left
/// unchanged.
pub fn check_for_collisions(paddle: &mut Paddle)
    requires
        old(paddle).rect.width <= WINDOW_WIDTH,
        -(POSITION_LIMIT + STEP_LIMIT) <= old(paddle).position.x <= POSITION_LIMIT + STEP_LIMIT,
    ensures
        final(paddle).position.x == clamped_paddle_x(
            old(paddle).position.x as int,
            old(paddle).rect.width,
        ),
        0 <= final(paddle).position.x <= (WINDOW_WIDTH - old(paddle).rect.width)
            * MILLI_PER_PIXEL,
        0 <= old(paddle).position.x <= (WINDOW_WIDTH - old(paddle).rect.width) * MILLI_PER_PIXEL
            ==> final(paddle).position.x == old(paddle).position.x,
        final(paddle).position.y == old(paddle).position.y,
        final(paddle).rect.x == pixel_of(final(paddle).position.x as int),
        final(paddle).rect.y == old(paddle).rect.y,
        final(paddle).rect.width == old(paddle).rect.width,
        final(paddle).rect.height == old(paddle).rect.height,
        old(paddle).rect.y == pixel_of(old(paddle).position.y as int) ==> final(paddle).tracks(),
{
    let max: i64 = (WINDOW_WIDTH - paddle.rect.width as i64) * MILLI_PER_PIXEL;
    if paddle.position.x < 0 {
        paddle.position.x = 0;
    }
    if paddle.position.x > max {
        paddle.position.x = max;
    }
    paddle.rect.x = to_pixel(paddle.position.x);
}

/// The ball after the left and right wall tests, taken in that order:
/// a rectangle past a vertical wall is clamped to it (position and
/// derived rectangle together) and the horizontal speed's sign flips.
pub open spec fn ball_after_walls_x(b: Ball) -> Ball {
    let b1 = if b.rect.x < 0 {
        Ball {
            position: Vector2 { x: 0, y: b.position.y },
            speed: Vector2 { x: (-b.speed.x) as i64, y: b.speed.y },
            rect: Rect { x: 0, y: b.rect.y, width: b.rect.width, height: b.rect.height },
        }
    } else {
        b
    };
    if b1.rect.spec_right() > WINDOW_WIDTH {
        Ball {
            position: Vector2 {
                x: ((WINDOW_WIDTH - b1.rect.width) * MILLI_PER_PIXEL) as i64,
                y: b1.position.y,
            },
            speed: Vector2 { x: (-b1.speed.x) as i64, y: b1.speed.y },
            rect: Rect {
                x: (WINDOW_WIDTH - b1.rect.width) as i64,
                y: b1.rect.y,
                width: b1.rect.width,
                height: b1.rect.height,
            },
        }
    } else {
        b1
    }
}

/// The ball after the top wall test: clamped to the top edge with the
/// vertical speed's sign flipped, if its rectangle crossed it.
pub open spec fn ball_after_wall_top(b: Ball) -> Ball {
    if b.rect.y < 0 {
        Ball {
            position: Vector2 { x: b.position.x, y: 0 },
            speed: Vector2 { x: b.speed.x, y: (-b.speed.y) as i64 },
            rect: Rect { x: b.rect.x, y: 0, width: b.rect.width, height: b.rect.height },
        }
    } else {
        b
    }
}

/// Whether wall resolution ends in a bottom miss: after the side and
/// top tests, the ball's rectangle still reaches below the field.
pub open spec fn wall_misses_bottom(b: Ball) -> bool {
    ball_after_wall_top(ball_after_walls_x(b)).rect.spec_bottom() > WINDOW_HEIGHT
}

/// The ball after full wall resolution, tests in fixed order: left,
/// right, top, bottom. A bottom miss resets the ball to its start
/// position and speed; the other three walls only clamp and flip.
pub open spec fn ball_after_walls(b: Ball) -> Ball {
    let b2 = ball_after_wall_top(ball_after_walls_x(b));
    if b2.rect.spec_bottom() > WINDOW_HEIGHT {
        ball_reset_spec(b2)
    } else {
        b2
    }
}

/// The lives counter after wall resolution: a bottom miss costs
/// exactly one life, anything else costs nothing.
pub open spec fn lives_after_walls(b: Ball, lives: int) -> int {
    if wall_misses_bottom(b) {
        lives - 1
    } else {
        lives
    }
}

/// Resolve the ball against the four playfield walls, in fixed order:
/// left, right, top, then bottom. The side and top walls clamp the
/// ball back inside and flip the matching speed component's sign. The
/// bottom wall is a miss: it costs one life and puts the ball back at
/// its start position and speed — the only collision that touches
/// round state.
pub fn resolve_ball_wall_collisions(ball: &mut Ball, player_lives: &mut i32)
    requires
        old(ball).wf(),
        old(ball).rect.width <= WINDOW_WIDTH,
        old(ball).rect.height <= WINDOW_HEIGHT,
        *old(player_lives) > i32::MIN,
    ensures
        *final(ball) == ball_after_walls(*old(ball)),
        *final(player_lives) == lives_after_walls(*old(ball), *old(player_lives) as int),
        final(ball).wf(),
        !wall_misses_bottom(*old(ball)) ==> final(ball).in_field(),
        (old(ball).rect.width <= WINDOW_WIDTH - crate::game::BALL_START_POSITION_X
            && old(ball).rect.height <= WINDOW_HEIGHT - crate::game::BALL_START_POSITION_Y)
            ==> final(ball).in_field(),
        final(ball).rect.width == old(ball).rect.width,
        final(ball).rect.height == old(ball).rect.height,
        wall_misses_bottom(*old(ball)) ==> *final(ball) == ball_reset_spec(*old(ball))
            && *final(player_lives) == *old(player_lives) - 1,
        !wall_misses_bottom(*old(ball)) ==> *final(player_lives) == *old(player_lives),
{
    proof {
        lemma_pixel_of_bounded(old(ball).position.x as int);
        lemma_pixel_of_bounded(old(ball).position.y as int);
        lemma_pixel_of_range(old(ball).position.x as int);
        lemma_pixel_of_range(old(ball).position.y as int);
    }
    if ball.rect.x < 0 {
        ball.position.x = 0;
        ball.rect.x = 0;
        ball.speed.x = -ball.speed.x;
    }
    if ball.rect.right() > WINDOW_WIDTH {
        let edge: i64 = WINDOW_WIDTH - ball.rect.width as i64;
        ball.rect.x = edge;
        ball.position.x = edge * MILLI_PER_PIXEL;
        ball.speed.x = -ball.speed.x;
        proof {
            lemma_pixel_of_whole(edge as int);
        }
    }
    if ball.rect.y < 0 {
        ball.position.y = 0;
        ball.rect.y = 0;
        ball.speed.y = -ball.speed.y;
    }
    if ball.rect.bottom() > WINDOW_HEIGHT {
        *player_lives = *player_lives - 1;
        reset_ball(ball);
        proof {
            lemma_pixel_of_whole(crate::game::BALL_START_POSITION_X as int);
            lemma_pixel_of_whole(crate::game::BALL_START_POSITION_Y as int);
        }
    }
}

/// The ball after the paddle test: the vertical speed's sign flips
/// when the rectangles intersect, the ball's bottom has reached the
/// paddle's top, and the ball is moving downward. Nothing else
/// changes: no horizontal speed change and no position correction.
pub open spec fn ball_after_paddle(b: Ball, paddle_rect: Rect) -> Ball {
    if b.rect.spec_intersects(paddle_rect) && b.rect.spec_bottom() >= paddle_rect.y && b.speed.y
        > 0 {
        Ball {
            position: b.position,
            speed: Vector2 { x: b.speed.x, y: (-b.speed.y) as i64 },
            rect: b.rect,
        }
    } else {
        b
    }
}

/// Bounce the ball off the paddle: only a ball moving downward into
/// the paddle from above is deflected, by flipping the sign of its
/// vertical speed. The ball is not moved, so it may overlap the
/// paddle for one frame.
pub fn resolve_ball_paddle_collisions(ball: &mut Ball, paddle: &Paddle)
    requires
        old(ball).wf(),
        coords_bounded(paddle.rect),
    ensures
        *final(ball) == ball_after_paddle(*old(ball), paddle.rect),
        final(ball).wf(),
        final(ball).position == old(ball).position,
        final(ball).rect == old(ball).rect,
{
    proof {
        lemma_pixel_of_bounded(old(ball).position.x as int);
        lemma_pixel_of_bounded(old(ball).position.y as int);
    }
    if ball.rect.has_intersection(&paddle.rect) {
        if ball.rect.bottom() >= paddle.rect.y && ball.speed.y > 0 {
            ball.speed.y = -ball.speed.y;
        }
    }
}

/// Whether the ball's motion reflects vertically off the brick: the
/// ball's bottom has reached the brick's top while moving down, or the
/// ball's top has reached the brick's bottom while moving up.
pub open spec fn brick_vertical_hit(b: Ball, k: Brick) -> bool {
    ||| (b.rect.spec_bottom() >= k.rect.y && b.speed.y > 0)
    ||| (b.rect.y >= k.rect.spec_bottom() && b.speed.y < 0)
}

/// Whether the ball's motion reflects horizontally off the brick.
/// Both directions are tested against the brick's left edge; that
/// asymmetry with the vertical test is the game's fixed behaviour.
pub open spec fn brick_horizontal_hit(b: Ball, k: Brick) -> bool {
    ||| (b.rect.spec_right() >= k.rect.x && b.speed.x > 0)
    ||| (b.rect.x >= k.rect.x && b.speed.x < 0)
}

/// Whether the ball destroys the brick: the brick still stands, the
/// rectangles intersect, and at least one reflection condition holds.
pub open spec fn brick_collides(b: Ball, k: Brick) -> bool {
    &&& k.active
    &&& b.rect.spec_intersects(k.rect)
    &&& (brick_vertical_hit(b, k) || brick_horizontal_hit(b, k))
}

/// The ball after the brick test: each axis whose reflection
/// condition holds gets its speed's sign flipped — both can flip on a
/// corner hit. Position and rectangle stay put.
pub open spec fn ball_after_brick(b: Ball, k: Brick) -> Ball {
    if k.active && b.rect.spec_intersects(k.rect) {
        let sy: i64 = if brick_vertical_hit(b, k) {
            (-b.speed.y) as i64
        } else {
            b.speed.y
        };
        let sx: i64 = if brick_horizontal_hit(b, k) {
            (-b.speed.x) as i64
        } else {
            b.speed.x
        };
        Ball { position: b.position, speed: Vector2 { x: sx, y: sy }, rect: b.rect }
    } else {
        b
    }
}

/// The brick after the ball test: switched off exactly when the
/// collision fires; its rectangle never changes.
pub open spec fn brick_after_ball(b: Ball, k: Brick) -> Brick {
    if brick_collides(b, k) {
        Brick { rect: k.rect, active: false }
    } else {
        k
    }
}

/// Resolve the ball against one brick. An inactive or non-intersected
/// brick changes nothing. On a hit the matching speed signs flip, the
/// brick is switched off, the standing-brick count drops by exactly
/// one and the destroyed count rises by exactly one — the only place
/// those counters change.
pub fn resolve_ball_brick_collisions(
    ball: &mut Ball,
    brick: &mut Brick,
    brick_count: &mut i32,
    bricks_destroyed: &mut i32,
)
    requires
        old(ball).wf(),
        coords_bounded(old(brick).rect),
        *old(brick_count) > i32::MIN,
        *old(bricks_destroyed) < i32::MAX,
    ensures
        *final(ball) == ball_after_brick(*old(ball), *old(brick)),
        *final(brick) == brick_after_ball(*old(ball), *old(brick)),
        *final(brick_count) == *old(brick_count) - (if brick_collides(*old(ball), *old(brick)) {
            1int
        } else {
            0int
        }),
        *final(bricks_destroyed) == *old(bricks_destroyed) + (if brick_collides(
            *old(ball),
            *old(brick),
        ) {
            1int
        } else {
            0int
        }),
        final(ball).wf(),
        final(ball).position == old(ball).position,
        final(ball).rect == old(ball).rect,
        final(brick).rect == old(brick).rect,
{
    proof {
        lemma_pixel_of_bounded(old(ball).position.x as int);
        lemma_pixel_of_bounded(old(ball).position.y as int);
    }
    let mut collided = false;
    if brick.active && ball.rect.has_intersection(&brick.rect) {
        if (ball.rect.bottom() >= brick.rect.y && ball.speed.y > 0) || (ball.rect.y
            >= brick.rect.bottom() && ball.speed.y < 0) {
            ball.speed.y = -ball.speed.y;
            collided = true;
        }
        if (ball.rect.right() >= brick.rect.x && ball.speed.x > 0) || (ball.rect.x >= brick.rect.x
            && ball.speed.x < 0) {
            ball.speed.x = -ball.speed.x;
            collided = true;
        }
    }
    if collided {
        brick.active = false;
        *brick_count = *brick_count - 1;
        *bricks_destroyed = *bricks_destroyed + 1;
    }
}

/// The outcome of resolving the ball against a row-major sequence of
/// bricks, one after the other, each test seeing the speed left by
/// the previous one: the final ball, the bricks after the pass, and
/// how many bricks the pass destroyed.
pub open spec fn bricks_outcome(b: Ball, s: Seq<Brick>) -> (Ball, Seq<Brick>, int)
    decreases s.len(),
{
    if s.len() == 0 {
        (b, Seq::<Brick>::empty(), 0int)
    } else {
        let hit: int = if brick_collides(b, s[0]) {
            1
        } else {
            0
        };
        let rest = bricks_outcome(ball_after_brick(b, s[0]), s.skip(1));
        (rest.0, seq![brick_after_ball(b, s[0])] + rest.1, hit + rest.2)
    }
}

/// What one pass over the grid preserves: the ball keeps its position
/// and rectangle (and bounded speed), every brick keeps its
/// rectangle, and the destroyed count is exactly the drop in the
/// number of standing bricks.
pub proof fn lemma_bricks_outcome_props(b: Ball, s: Seq<Brick>)
    ensures
        bricks_outcome(b, s).1.len() == s.len(),
        forall|i: int|
            0 <= i < s.len() ==> #[trigger] bricks_outcome(b, s).1[i].rect == s[i].rect,
        count_active(bricks_outcome(b, s).1) == count_active(s) - bricks_outcome(b, s).2,
        0 <= bricks_outcome(b, s).2 <= count_active(s),
        bricks_outcome(b, s).0.position == b.position,
        bricks_outcome(b, s).0.rect == b.rect,
        b.speed_bounded() ==> bricks_outcome(b, s).0.speed_bounded(),
    decreases s.len(),
{
    lemma_count_active_bounds(s);
    if s.len() > 0 {
        let b1 = ball_after_brick(b, s[0]);
        let k1 = brick_after_ball(b, s[0]);
        let rest = bricks_outcome(b1, s.skip(1));
        lemma_bricks_outcome_props(b1, s.skip(1));
        lemma_count_active_bounds(s.skip(1));
        assert((seq![k1] + rest.1).skip(1) =~= rest.1);
        assert(count_active(seq![k1] + rest.1) == (if k1.active {
            1int
        } else {
            0int
        }) + count_active(rest.1));
    }
}

/// A wall bounce inverts exactly the sign of the bounced axis's speed
/// and leaves the other axis alone; the two axes' tests are
/// independent, so a corner can flip both. A bottom miss is excluded:
/// there the ball is reset to its start speed instead of reflected.
pub proof fn lemma_wall_bounce_inverts_one_axis(b: Ball)
    requires
        b.speed_bounded(),
        b.rect.width <= WINDOW_WIDTH,
        !wall_misses_bottom(b),
    ensures
        (b.rect.x < 0 || b.rect.spec_right() > WINDOW_WIDTH) ==> ball_after_walls(b).speed.x == -b.speed.x,
        !(b.rect.x < 0 || b.rect.spec_right() > WINDOW_WIDTH) ==> ball_after_walls(b).speed.x == b.speed.x,
        b.rect.y < 0 ==> ball_after_walls(b).speed.y == -b.speed.y,
        b.rect.y >= 0 ==> ball_after_walls(b).speed.y == b.speed.y,
{
    if b.rect.x < 0 {
        assert(ball_after_walls_x(b).rect.spec_right() == b.rect.width);
    }
}

/// A bottom miss is idempotent: it costs exactly one life and puts
/// the ball at the exact start position and speed, whatever the
/// incoming speed was; resolving the reset ball again changes
/// nothing, so no second life can be lost for the same miss.
pub proof fn lemma_bottom_miss_idempotent(b: Ball, lives: int)
    requires
        wall_misses_bottom(b),
        b.rect.width <= WINDOW_WIDTH - crate::game::BALL_START_POSITION_X,
        b.rect.height <= WINDOW_HEIGHT - crate::game::BALL_START_POSITION_Y,
    ensures
        ball_after_walls(b) == ball_reset_spec(b),
        lives_after_walls(b, lives) == lives - 1,
        ball_after_walls(ball_reset_spec(b)) == ball_reset_spec(b),
        lives_after_walls(ball_reset_spec(b), lives - 1) == lives - 1,
{
}

/// Brick collision is one-shot: once a brick has been switched off by
/// a hit, no later pass can hit it again — the brick, the ball and
/// (by the resolver's contract) the two counters are left exactly as
/// they were.
pub proof fn lemma_brick_collision_one_shot(first: Ball, later: Ball, k: Brick)
    requires
        brick_collides(first, k),
    ensures
        !brick_after_ball(first, k).active,
        !brick_collides(later, brick_after_ball(first, k)),
        brick_after_ball(later, brick_after_ball(first, k)) == brick_after_ball(first, k),
        ball_after_brick(later, brick_after_ball(first, k)) == later,
{
}

} // verus!
