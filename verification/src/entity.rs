//! Entity model: a rectangle, and a block (paddle or ball) with a
//! position, a constant extent and an integer per-tick velocity.

use vstd::prelude::*;

verus! {

/// An axis-aligned rectangle: top-left corner and extent. It is both
/// an entity's hitbox and the rectangle of the wire format.
#[derive(Clone, Copy, Debug, PartialEq, Eq, Structural)]
pub struct RectRecv {
    pub x: i32,
    pub y: i32,
    pub w: u32,
    pub h: u32,
}

/// What an entity behaves as: wall bounces and scoring apply only to
/// the ball, movement input only to a paddle.
#[derive(Clone, Copy, Debug, PartialEq, Eq, Structural)]
pub enum BlockKind {
    Paddle,
    Ball,
}

/// A game entity: one hitbox rectangle (used for all collision and
/// boundary math) and a velocity in units per tick. The extent is
/// constant over an entity's lifetime; only the position moves.
#[derive(Clone, Copy, Debug, PartialEq, Eq, Structural)]
pub struct Block {
    pub rect: RectRecv,
    pub velocity_x: i32,
    pub velocity_y: i32,
    pub kind: BlockKind,
}

impl Block {
    /// Creates an entity with the given hitbox and velocity.
    pub fn new(rect: RectRecv, velocity_x: i32, velocity_y: i32, kind: BlockKind) -> (b: Block)
        ensures
            b == (Block { rect, velocity_x, velocity_y, kind }),
    {
        Block { rect, velocity_x, velocity_y, kind }
    }

    /// Advances the position by the velocity, one tick.
    pub fn update_position(&mut self)
        requires
            i32::MIN <= old(self).rect.x + old(self).velocity_x <= i32::MAX,
            i32::MIN <= old(self).rect.y + old(self).velocity_y <= i32::MAX,
        ensures
            final(self).rect.x == old(self).rect.x + old(self).velocity_x,
            final(self).rect.y == old(self).rect.y + old(self).velocity_y,
            final(self).rect.w == old(self).rect.w,
            final(self).rect.h == old(self).rect.h,
            final(self).velocity_x == old(self).velocity_x,
            final(self).velocity_y == old(self).velocity_y,
            final(self).kind == old(self).kind,
    {
        self.rect.x = self.rect.x + self.velocity_x;
        self.rect.y = self.rect.y + self.velocity_y;
    }
}

/// Width of an entity's hitbox, as a horizontal offset from its left
/// edge to its right edge.
pub fn calculate_object_right(object: &Block) -> (r: i32)
    requires
        object.rect.w <= i32::MAX,
    ensures
        r == object.rect.w,
{
    object.rect.w as i32
}

} // verus!
