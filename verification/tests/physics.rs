use rustout::game::Ball;
use rustout::game::Paddle;
use rustout::game::reset_ball;
use rustout::game::update_ball_position;
use rustout::geometry::Rect;
use rustout::geometry::Vector2;
use rustout::physics::check_for_collisions;
use rustout::physics::resolve_ball_brick_collisions;
use rustout::physics::resolve_ball_paddle_collisions;
use rustout::physics::resolve_ball_wall_collisions;
use rustout::bricks::Brick;

fn ball_at(px: i64, py: i64, sx: i64, sy: i64) -> Ball {
    Ball {
        position: Vector2 { x: px * 1000, y: py * 1000 },
        speed: Vector2 { x: sx, y: sy },
        rect: Rect { x: px, y: py, width: 8, height: 8 },
    }
}

fn paddle_at_milli(x: i64) -> Paddle {
    let px = if x >= 0 { x / 1000 } else { -((-x) / 1000) };
    Paddle {
        position: Vector2 { x, y: 530_000 },
        rect: Rect { x: px, y: 530, width: 62, height: 12 },
    }
}

#[test]
fn clamp_pushes_left_out_of_range_position_to_zero() {
    let mut paddle = paddle_at_milli(-5_000);
    check_for_collisions(&mut paddle);
    assert_eq!(paddle.position.x, 0);
    assert_eq!(paddle.rect.x, 0);
    assert_eq!(paddle.position.y, 530_000);
}

#[test]
fn clamp_pushes_right_out_of_range_position_to_max() {
    let mut paddle = paddle_at_milli(900_000);
    check_for_collisions(&mut paddle);
    // field width 800 minus paddle width 62, in milli-pixels
    assert_eq!(paddle.position.x, 738_000);
    assert_eq!(paddle.rect.x, 738);
}

#[test]
fn clamp_leaves_in_range_position_unchanged() {
    let mut paddle = paddle_at_milli(300_000);
    check_for_collisions(&mut paddle);
    assert_eq!(paddle.position.x, 300_000);
    assert_eq!(paddle.rect.x, 300);
}

#[test]
fn left_wall_bounce_inverts_x_sign_only() {
    let mut ball = ball_at(-2, 300, -150, 75);
    ball.position.x = -2_400;
    let mut lives = 3;
    resolve_ball_wall_collisions(&mut ball, &mut lives);
    assert_eq!(ball.speed.x, 150);
    assert_eq!(ball.speed.y, 75);
    assert_eq!(ball.rect.x, 0);
    assert_eq!(ball.position.x, 0);
    assert_eq!(lives, 3);
}

#[test]
fn right_wall_bounce_inverts_x_sign_only() {
    let mut ball = ball_at(795, 300, 150, -75);
    let mut lives = 3;
    resolve_ball_wall_collisions(&mut ball, &mut lives);
    assert_eq!(ball.speed.x, -150);
    assert_eq!(ball.speed.y, -75);
    // clamped so that the right edge sits on the field edge
    assert_eq!(ball.rect.x, 792);
    assert_eq!(ball.position.x, 792_000);
    assert_eq!(lives, 3);
}

#[test]
fn top_wall_bounce_inverts_y_sign_only() {
    let mut ball = ball_at(300, -2, 75, -150);
    let mut lives = 3;
    resolve_ball_wall_collisions(&mut ball, &mut lives);
    assert_eq!(ball.speed.x, 75);
    assert_eq!(ball.speed.y, 150);
    assert_eq!(ball.rect.y, 0);
    assert_eq!(ball.position.y, 0);
    assert_eq!(lives, 3);
}

#[test]
fn corner_bounce_inverts_both_axes() {
    let mut ball = ball_at(-2, -2, -150, -150);
    ball.position.x = -2_400;
    ball.position.y = -2_400;
    let mut lives = 3;
    resolve_ball_wall_collisions(&mut ball, &mut lives);
    assert_eq!(ball.speed.x, 150);
    assert_eq!(ball.speed.y, 150);
    assert_eq!(lives, 3);
}

#[test]
fn bottom_miss_costs_one_life_and_resets_ball_exactly() {
    let mut ball = ball_at(400, 599, 150, 150);
    let mut lives = 3;
    resolve_ball_wall_collisions(&mut ball, &mut lives);
    assert_eq!(lives, 2);
    assert_eq!(ball.position.x, 50_000);
    assert_eq!(ball.position.y, 450_000);
    assert_eq!(ball.rect.x, 50);
    assert_eq!(ball.rect.y, 450);
    assert_eq!(ball.speed.x, 150);
    assert_eq!(ball.speed.y, -150);
}

#[test]
fn bottom_miss_reset_ignores_incoming_speed_magnitude() {
    let mut fast = ball_at(400, 599, 9_000, 9_000);
    let mut lives = 2;
    resolve_ball_wall_collisions(&mut fast, &mut lives);
    assert_eq!(lives, 1);
    let expected = {
        let mut b = ball_at(0, 0, 0, 0);
        reset_ball(&mut b);
        b
    };
    assert_eq!(fast, expected);
}

#[test]
fn paddle_bounce_flips_downward_ball() {
    let paddle = paddle_at_milli(300_000);
    let mut ball = ball_at(320, 525, 150, 150);
    resolve_ball_paddle_collisions(&mut ball, &paddle);
    assert_eq!(ball.speed.y, -150);
    assert_eq!(ball.speed.x, 150);
    // no position correction
    assert_eq!(ball.rect.y, 525);
}

#[test]
fn paddle_does_not_deflect_upward_ball() {
    let paddle = paddle_at_milli(300_000);
    let mut ball = ball_at(320, 525, 150, -150);
    resolve_ball_paddle_collisions(&mut ball, &paddle);
    assert_eq!(ball.speed.y, -150);
}

#[test]
fn paddle_does_not_deflect_non_intersecting_ball() {
    let paddle = paddle_at_milli(300_000);
    let mut ball = ball_at(100, 100, 150, 150);
    resolve_ball_paddle_collisions(&mut ball, &paddle);
    assert_eq!(ball.speed.y, 150);
}

#[test]
fn brick_hit_destroys_brick_and_moves_counters_by_exactly_one() {
    let mut ball = ball_at(150, 50, 0, 150);
    let mut brick = Brick {
        rect: Rect { x: 150, y: 50, width: 40, height: 16 },
        active: true,
    };
    let mut count = 32;
    let mut destroyed = 0;
    resolve_ball_brick_collisions(&mut ball, &mut brick, &mut count, &mut destroyed);
    assert!(!brick.active);
    assert_eq!(count, 31);
    assert_eq!(destroyed, 1);
    assert_eq!(ball.speed.y, -150);
    assert_eq!(ball.speed.x, 0);
}

#[test]
fn destroyed_brick_never_retriggers() {
    let mut ball = ball_at(150, 50, 0, 150);
    let mut brick = Brick {
        rect: Rect { x: 150, y: 50, width: 40, height: 16 },
        active: true,
    };
    let mut count = 32;
    let mut destroyed = 0;
    resolve_ball_brick_collisions(&mut ball, &mut brick, &mut count, &mut destroyed);
    assert!(!brick.active);
    // a second identical pass over the now-dead brick changes nothing
    let mut again = ball_at(150, 50, 0, 150);
    resolve_ball_brick_collisions(&mut again, &mut brick, &mut count, &mut destroyed);
    assert!(!brick.active);
    assert_eq!(count, 31);
    assert_eq!(destroyed, 1);
    assert_eq!(again.speed.x, 0);
    assert_eq!(again.speed.y, 150);
}

#[test]
fn inactive_brick_intersecting_ball_changes_nothing() {
    let mut ball = ball_at(150, 50, 75, 150);
    let mut brick = Brick {
        rect: Rect { x: 150, y: 50, width: 40, height: 16 },
        active: false,
    };
    let mut count = 31;
    let mut destroyed = 1;
    resolve_ball_brick_collisions(&mut ball, &mut brick, &mut count, &mut destroyed);
    assert!(!brick.active);
    assert_eq!(count, 31);
    assert_eq!(destroyed, 1);
    assert_eq!(ball.speed.x, 75);
    assert_eq!(ball.speed.y, 150);
}

#[test]
fn intersecting_brick_without_reflection_condition_survives() {
    // the ball overlaps the brick but is motionless, so neither
    // reflection condition fires and nothing changes
    let mut ball = ball_at(150, 50, 0, 0);
    let mut brick = Brick {
        rect: Rect { x: 150, y: 50, width: 40, height: 16 },
        active: true,
    };
    let mut count = 32;
    let mut destroyed = 0;
    resolve_ball_brick_collisions(&mut ball, &mut brick, &mut count, &mut destroyed);
    assert!(brick.active);
    assert_eq!(count, 32);
    assert_eq!(destroyed, 0);
}

#[test]
fn corner_brick_hit_flips_both_axes() {
    let mut ball = ball_at(150, 50, 150, 150);
    let mut brick = Brick {
        rect: Rect { x: 150, y: 50, width: 40, height: 16 },
        active: true,
    };
    let mut count = 32;
    let mut destroyed = 0;
    resolve_ball_brick_collisions(&mut ball, &mut brick, &mut count, &mut destroyed);
    assert!(!brick.active);
    assert_eq!(ball.speed.x, -150);
    assert_eq!(ball.speed.y, -150);
    assert_eq!(count, 31);
    assert_eq!(destroyed, 1);
}

#[test]
fn ball_update_integrates_speed_over_elapsed_time() {
    let mut ball = ball_at(10, 20, 150, -150);
    update_ball_position(&mut ball, 100);
    assert_eq!(ball.position.x, 25_000);
    assert_eq!(ball.position.y, 5_000);
    assert_eq!(ball.rect.x, 25);
    assert_eq!(ball.rect.y, 5);
}

#[test]
fn ball_update_truncates_sub_pixel_positions_toward_zero() {
    let mut ball = ball_at(0, 0, -150, 0);
    update_ball_position(&mut ball, 3);
    assert_eq!(ball.position.x, -450);
    assert_eq!(ball.rect.x, 0);
    update_ball_position(&mut ball, 7);
    assert_eq!(ball.position.x, -1_500);
    assert_eq!(ball.rect.x, -1);
}

#[test]
fn reset_ball_restores_start_constants() {
    let mut ball = ball_at(400, 100, -75, 300);
    reset_ball(&mut ball);
    assert_eq!(ball.position.x, 50_000);
    assert_eq!(ball.position.y, 450_000);
    assert_eq!(ball.rect.x, 50);
    assert_eq!(ball.rect.y, 450);
    assert_eq!(ball.speed.x, 150);
    assert_eq!(ball.speed.y, -150);
}
