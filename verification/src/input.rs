//! Input-to-velocity mapper: turns newly pressed movement keys into a
//! bounded horizontal displacement of the locally controlled paddle.

use vstd::prelude::*;
use crate::entity::Block;
use crate::entity::BlockKind;
use crate::WINDOW_WIDTH;

verus! {

/// The movement keys a frame can hold down. The caller samples the
/// keyboard into one of these per frame.
#[derive(Clone, Copy, Debug, PartialEq, Eq, Structural)]
pub struct KeySet {
    pub left: bool,
    pub right: bool,
}

/// A key newly pressed this frame: down now and not down before.
pub open spec fn newly_left(keys: KeySet, prev_keys: KeySet) -> bool {
    keys.left && !prev_keys.left
}

/// A key newly pressed this frame: down now and not down before.
pub open spec fn newly_right(keys: KeySet, prev_keys: KeySet) -> bool {
    keys.right && !prev_keys.right
}

/// One discrete movement step: twice the block unit.
pub open spec fn move_step() -> int {
    2 * crate::BLOCK_SIZE
}

/// The paddle's horizontal position after the movement keys newly
/// pressed this frame are applied, left first. A left move is rejected
/// when it would put the hitbox's left edge at or beyond the left
/// boundary; a right move when it would put the right edge at or
/// beyond the right boundary.
pub open spec fn moved_x(b: Block, keys: KeySet, prev_keys: KeySet) -> int {
    let x1 = if newly_left(keys, prev_keys) && b.rect.x - move_step() > 0 {
        b.rect.x - move_step()
    } else {
        b.rect.x as int
    };
    if newly_right(keys, prev_keys) && x1 + move_step() + b.rect.w < WINDOW_WIDTH {
        x1 + move_step()
    } else {
        x1
    }
}

impl Block {
    /// Applies the newly pressed movement keys (current key set minus
    /// the previous frame's) to the paddle: a fixed horizontal step
    /// per key, silently clamped at the world boundaries. No vertical
    /// movement, and the velocity is untouched. A move never drives a
    /// hitbox edge across its world boundary.
    pub fn handle_movement(&mut self, keys: &KeySet, prev_keys: &KeySet)
        requires
            old(self).kind == BlockKind::Paddle,
        ensures
            final(self).rect.x == moved_x(*old(self), *keys, *prev_keys),
            final(self).rect.y == old(self).rect.y,
            final(self).rect.w == old(self).rect.w,
            final(self).rect.h == old(self).rect.h,
            final(self).velocity_x == old(self).velocity_x,
            final(self).velocity_y == old(self).velocity_y,
            final(self).kind == old(self).kind,
            old(self).rect.x > 0 ==> final(self).rect.x > 0,
            old(self).rect.x + old(self).rect.w < WINDOW_WIDTH
                ==> final(self).rect.x + final(self).rect.w < WINDOW_WIDTH,
    {
        let step = (crate::BLOCK_SIZE * 2) as i32;
        if keys.left && !prev_keys.left {
            if self.rect.x as i64 - step as i64 > 0 {
                self.rect.x = self.rect.x - step;
            }
        }
        if keys.right && !prev_keys.right {
            let limit: i64 = WINDOW_WIDTH as i64;
            let right_after: i64 = self.rect.x as i64 + step as i64 + self.rect.w as i64;
            if right_after < limit {
                self.rect.x = self.rect.x + step;
            }
        }
    }
}

} // verus!
