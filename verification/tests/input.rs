use pong_core::entity::Block;
use pong_core::entity::BlockKind;
use pong_core::entity::RectRecv;
use pong_core::input::KeySet;

fn paddle_at(x: i32) -> Block {
    Block::new(RectRecv { x, y: 750, w: 120, h: 15 }, 0, 0, BlockKind::Paddle)
}

const NONE: KeySet = KeySet { left: false, right: false };
const LEFT: KeySet = KeySet { left: true, right: false };
const RIGHT: KeySet = KeySet { left: false, right: true };
const BOTH: KeySet = KeySet { left: true, right: true };

#[test]
fn newly_pressed_left_moves_one_step() {
    let mut paddle = paddle_at(300);
    paddle.handle_movement(&LEFT, &NONE);
    assert_eq!(paddle.rect.x, 290);
    assert_eq!(paddle.rect.y, 750);
}

#[test]
fn newly_pressed_right_moves_one_step() {
    let mut paddle = paddle_at(300);
    paddle.handle_movement(&RIGHT, &NONE);
    assert_eq!(paddle.rect.x, 310);
}

#[test]
fn held_key_is_not_a_new_press() {
    let mut paddle = paddle_at(300);
    paddle.handle_movement(&LEFT, &LEFT);
    assert_eq!(paddle.rect.x, 300);
}

#[test]
fn both_new_keys_cancel_out() {
    let mut paddle = paddle_at(300);
    paddle.handle_movement(&BOTH, &NONE);
    assert_eq!(paddle.rect.x, 300);
}

#[test]
fn left_move_is_rejected_at_the_left_boundary() {
    // a step would put the left edge at 0
    let mut paddle = paddle_at(10);
    paddle.handle_movement(&LEFT, &NONE);
    assert_eq!(paddle.rect.x, 10);
    // one unit of room: the step would cross the boundary
    let mut paddle = paddle_at(5);
    paddle.handle_movement(&LEFT, &NONE);
    assert_eq!(paddle.rect.x, 5);
    // just enough room
    let mut paddle = paddle_at(11);
    paddle.handle_movement(&LEFT, &NONE);
    assert_eq!(paddle.rect.x, 1);
}

#[test]
fn right_move_is_rejected_at_the_right_boundary() {
    // width 120: a step from 670 would put the right edge at 800
    let mut paddle = paddle_at(670);
    paddle.handle_movement(&RIGHT, &NONE);
    assert_eq!(paddle.rect.x, 670);
    // just enough room
    let mut paddle = paddle_at(669);
    paddle.handle_movement(&RIGHT, &NONE);
    assert_eq!(paddle.rect.x, 679);
}

#[test]
fn movement_never_touches_velocity_or_extent() {
    let mut paddle = Block::new(RectRecv { x: 300, y: 750, w: 120, h: 15 }, 1, 2, BlockKind::Paddle);
    paddle.handle_movement(&RIGHT, &NONE);
    assert_eq!(paddle.velocity_x, 1);
    assert_eq!(paddle.velocity_y, 2);
    assert_eq!(paddle.rect.w, 120);
    assert_eq!(paddle.rect.h, 15);
}
