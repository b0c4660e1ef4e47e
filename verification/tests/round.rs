use rustout::bricks::initialize_grid;
use rustout::bricks::reset_all;
use rustout::bricks::Brick;
use rustout::game::Ball;
use rustout::game::reset_ball;
use rustout::geometry::Rect;
use rustout::geometry::Vector2;
use rustout::round::check_victory;
use rustout::round::restart_round;
use rustout::round::GameRound;

fn ball_at(px: i64, py: i64, sx: i64, sy: i64) -> Ball {
    Ball {
        position: Vector2 { x: px * 1000, y: py * 1000 },
        speed: Vector2 { x: sx, y: sy },
        rect: Rect { x: px, y: py, width: 8, height: 8 },
    }
}

#[test]
fn grid_layout_is_deterministic_row_major() {
    let grid = initialize_grid(4, 8, 40, 16, 28, 12, 150, 50);
    assert_eq!(grid.len(), 32);
    assert_eq!(grid[0].rect, Rect { x: 150, y: 50, width: 40, height: 16 });
    // one column to the right: x moves by cell width plus spacing
    assert_eq!(grid[1].rect.x, 218);
    assert_eq!(grid[1].rect.y, 50);
    // one row down: y moves by cell height plus spacing
    assert_eq!(grid[8].rect.x, 150);
    assert_eq!(grid[8].rect.y, 78);
    // last cell
    assert_eq!(grid[31].rect.x, 626);
    assert_eq!(grid[31].rect.y, 134);
    assert!(grid.iter().all(|b| b.active));
}

#[test]
fn reset_all_reactivates_without_moving_bricks() {
    let mut grid = vec![
        Brick { rect: Rect { x: 10, y: 20, width: 40, height: 16 }, active: false },
        Brick { rect: Rect { x: 78, y: 20, width: 40, height: 16 }, active: true },
    ];
    reset_all(&mut grid);
    assert_eq!(grid.len(), 2);
    assert!(grid[0].active);
    assert!(grid[1].active);
    assert_eq!(grid[0].rect, Rect { x: 10, y: 20, width: 40, height: 16 });
    assert_eq!(grid[1].rect, Rect { x: 78, y: 20, width: 40, height: 16 });
}

#[test]
fn new_round_starts_full() {
    let round = GameRound::new();
    assert_eq!(round.lives, 3);
    assert_eq!(round.bricks_destroyed, 0);
    assert_eq!(round.brick_count, 32);
    assert_eq!(round.bricks.len(), 32);
    assert!(round.bricks.iter().all(|b| b.active));
}

#[test]
fn check_victory_fires_on_zero_lives_or_zero_bricks() {
    assert!(check_victory(0, 5));
    assert!(check_victory(3, 0));
    assert!(check_victory(0, 0));
    assert!(!check_victory(3, 5));
}

#[test]
fn restart_round_is_total() {
    let mut round = GameRound::new();
    // mid-round state: one brick down, a life lost, ball elsewhere
    let dead_rect = round.bricks[3].rect;
    round.bricks[3] = Brick { rect: dead_rect, active: false };
    round.brick_count = 31;
    round.bricks_destroyed = 1;
    round.lives = 2;
    let mut ball = ball_at(400, 100, -75, 300);
    restart_round(&mut round, &mut ball);
    assert_eq!(round.lives, 3);
    assert_eq!(round.bricks_destroyed, 0);
    assert_eq!(round.brick_count, 32);
    assert!(round.bricks.iter().all(|b| b.active));
    assert_eq!(round.bricks[3].rect, dead_rect);
    let expected = {
        let mut b = ball_at(0, 0, 0, 0);
        reset_ball(&mut b);
        b
    };
    assert_eq!(ball, expected);
}

#[test]
fn last_brick_destroyed_reaches_zero_and_triggers_victory() {
    let mut round = GameRound::new();
    // leave a single standing brick (the top-left one)
    for i in 1..round.bricks.len() {
        let rect = round.bricks[i].rect;
        round.bricks[i] = Brick { rect, active: false };
    }
    round.brick_count = 1;
    round.bricks_destroyed = 31;
    let mut ball = ball_at(150, 50, 0, 150);
    round.resolve_bricks(&mut ball);
    assert_eq!(round.brick_count, 0);
    assert_eq!(round.bricks_destroyed, 32);
    assert!(!round.bricks[0].active);
    assert!(round.lives > 0);
    assert!(check_victory(round.lives, round.brick_count));
}

#[test]
fn grid_pass_over_inactive_bricks_changes_nothing() {
    let mut round = GameRound::new();
    for i in 0..round.bricks.len() {
        let rect = round.bricks[i].rect;
        round.bricks[i] = Brick { rect, active: false };
    }
    round.brick_count = 0;
    round.bricks_destroyed = 32;
    let mut ball = ball_at(150, 50, 75, 150);
    round.resolve_bricks(&mut ball);
    assert_eq!(round.brick_count, 0);
    assert_eq!(round.bricks_destroyed, 32);
    assert_eq!(ball.speed.x, 75);
    assert_eq!(ball.speed.y, 150);
    assert!(round.bricks.iter().all(|b| !b.active));
}

#[test]
fn bottom_miss_on_last_life_reaches_game_over() {
    let mut ball = ball_at(400, 599, 150, 150);
    let mut lives = 1;
    rustout::physics::resolve_ball_wall_collisions(&mut ball, &mut lives);
    assert_eq!(lives, 0);
    assert_eq!(ball.rect.x, 50);
    assert_eq!(ball.rect.y, 450);
    assert_eq!(ball.speed.x, 150);
    assert_eq!(ball.speed.y, -150);
    assert!(check_victory(lives, 17));
}
