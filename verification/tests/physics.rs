use pong_core::entity::Block;
use pong_core::entity::BlockKind;
use pong_core::entity::RectRecv;

fn ball_at(x: i32, y: i32, vx: i32, vy: i32) -> Block {
    Block::new(RectRecv { x, y, w: 50, h: 50 }, vx, vy, BlockKind::Ball)
}

fn paddle_at(x: i32, y: i32) -> Block {
    Block::new(RectRecv { x, y, w: 120, h: 15 }, 0, 0, BlockKind::Paddle)
}

#[test]
fn left_wall_flips_horizontal_velocity() {
    let mut ball = ball_at(0, 300, -3, 4);
    ball.handle_wall();
    assert_eq!(ball.velocity_x, 3);
    assert_eq!(ball.velocity_y, 4);
}

#[test]
fn right_wall_flips_horizontal_velocity() {
    // right edge 760 + 50 >= 800
    let mut ball = ball_at(760, 300, 7, 4);
    ball.handle_wall();
    assert_eq!(ball.velocity_x, -7);
    assert_eq!(ball.velocity_y, 4);
}

#[test]
fn top_wall_flips_vertical_velocity_only() {
    let mut ball = ball_at(300, 0, 7, -4);
    ball.handle_wall();
    assert_eq!(ball.velocity_x, 7);
    assert_eq!(ball.velocity_y, 4);
}

#[test]
fn open_field_keeps_velocity() {
    let mut ball = ball_at(300, 300, 7, 4);
    ball.handle_wall();
    assert_eq!(ball.velocity_x, 7);
    assert_eq!(ball.velocity_y, 4);
    assert_eq!(ball.rect.x, 300);
    assert_eq!(ball.rect.y, 300);
}

#[test]
fn scoring_boundary_does_not_bounce() {
    // the edge opposite the bouncing wall: y at the world height
    let mut ball = ball_at(300, 800, 7, 4);
    ball.handle_wall();
    assert_eq!(ball.velocity_x, 7);
    assert_eq!(ball.velocity_y, 4);
}

#[test]
fn paddle_contact_reflects_vertical_velocity() {
    let mut ball = ball_at(100, 50, 3, 5);
    let paddle = Block::new(
        RectRecv { x: 80, y: 50, w: 40, h: 15 },
        0,
        0,
        BlockKind::Paddle,
    );
    let collided = ball.react_object(&paddle);
    assert!(collided);
    assert_eq!(ball.velocity_y, -5);
    assert_eq!(ball.velocity_x, 3);
}

#[test]
fn paddle_outside_span_does_not_reflect() {
    let mut ball = ball_at(200, 50, 3, 5);
    let paddle = Block::new(
        RectRecv { x: 80, y: 50, w: 40, h: 15 },
        0,
        0,
        BlockKind::Paddle,
    );
    let collided = ball.react_object(&paddle);
    assert!(!collided);
    assert_eq!(ball.velocity_y, 5);
}

#[test]
fn paddle_row_without_overlap_does_not_reflect() {
    // horizontal overlap holds but neither vertical edge coincides
    let mut ball = ball_at(100, 40, 3, 5);
    let paddle = paddle_at(80, 55);
    let collided = ball.react_object(&paddle);
    assert!(!collided);
    assert_eq!(ball.velocity_y, 5);
}

#[test]
fn ball_bottom_edge_on_paddle_row_reflects() {
    // ball bottom edge (y + 50) meets the paddle's top edge
    let mut ball = ball_at(100, 100, 3, 5);
    let paddle = paddle_at(80, 150);
    let collided = ball.react_object(&paddle);
    assert!(collided);
    assert_eq!(ball.velocity_y, -5);
}

#[test]
fn goal_at_top_scores_player2_and_restarts() {
    let mut ball = ball_at(300, -50, 3, -5);
    let mut score = (2u32, 1u32);
    ball.handle_score(&mut score);
    assert_eq!(score, (2, 2));
    assert_eq!(ball.rect.x, 400);
    assert_eq!(ball.rect.y, 400);
    assert_eq!(ball.velocity_x, 0);
    assert_eq!(ball.velocity_y, 0);
}

#[test]
fn goal_at_bottom_scores_player1_and_restarts() {
    let mut ball = ball_at(300, 800, 3, 5);
    let mut score = (2u32, 1u32);
    ball.handle_score(&mut score);
    assert_eq!(score, (3, 1));
    assert_eq!(ball.rect.x, 400);
    assert_eq!(ball.rect.y, 400);
    assert_eq!(ball.velocity_x, 0);
    assert_eq!(ball.velocity_y, 0);
}

#[test]
fn no_goal_changes_nothing() {
    let mut ball = ball_at(300, 300, 3, 5);
    let mut score = (2u32, 1u32);
    ball.handle_score(&mut score);
    assert_eq!(score, (2, 1));
    assert_eq!(ball.rect.x, 300);
    assert_eq!(ball.rect.y, 300);
    assert_eq!(ball.velocity_y, 5);
}

#[test]
fn restart_recenters_and_stops_ball() {
    let mut ball = ball_at(12, 700, 9, -9);
    ball.restart();
    assert_eq!(ball.rect.x, 400);
    assert_eq!(ball.rect.y, 400);
    assert_eq!(ball.rect.w, 50);
    assert_eq!(ball.rect.h, 50);
    assert_eq!(ball.velocity_x, 0);
    assert_eq!(ball.velocity_y, 0);
}

#[test]
fn update_position_advances_by_velocity() {
    let mut ball = ball_at(300, 200, 25, 5);
    ball.update_position();
    assert_eq!(ball.rect.x, 325);
    assert_eq!(ball.rect.y, 205);
    assert_eq!(ball.velocity_x, 25);
    assert_eq!(ball.velocity_y, 5);
}

#[test]
fn object_right_is_the_hitbox_width() {
    let paddle = paddle_at(80, 55);
    assert_eq!(pong_core::entity::calculate_object_right(&paddle), 120);
}
