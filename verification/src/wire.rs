//! Wire model of the snapshot protocol: the entity state a client
//! sends for its own paddle, and the full authoritative snapshot it
//! receives back. The transport and the text encoding live outside
//! this crate; they hand these values in and out.

use vstd::prelude::*;
use crate::entity::Block;
use crate::entity::RectRecv;

verus! {

/// An entity's state on the wire: the visual rectangle, the hitbox,
/// and the velocity. On the wire the two rectangles are redundant
/// copies; the hitbox governs all collision math.
#[derive(Clone, Copy, Debug, PartialEq, Eq, Structural)]
pub struct BlockRecv {
    pub rect: RectRecv,
    pub border: RectRecv,
    pub velocity_x: i32,
    pub velocity_y: i32,
}

/// One client's entry in a snapshot: its network address, its paddle,
/// and the authority's bookkeeping about it.
#[derive(Debug)]
pub struct ClientRecv {
    pub addr: String,
    pub block: BlockRecv,
    pub sent: bool,
    pub id: String,
}

/// One authoritative snapshot: score, tick, every client's paddle,
/// whether the match has started, and the ball.
#[derive(Debug)]
pub struct GameRecv {
    pub score: (u32, u32),
    pub tick: u64,
    pub clients: Vec<ClientRecv>,
    pub is_started: bool,
    pub ball: BlockRecv,
    pub headers_sent: bool,
}

impl Block {
    /// The wire form of an entity: hitbox duplicated into both wire
    /// rectangles, velocity carried over.
    pub fn to_wire(&self) -> (w: BlockRecv)
        ensures
            w.rect == self.rect,
            w.border == self.rect,
            w.velocity_x == self.velocity_x,
            w.velocity_y == self.velocity_y,
    {
        BlockRecv {
            rect: self.rect,
            border: self.rect,
            velocity_x: self.velocity_x,
            velocity_y: self.velocity_y,
        }
    }
}

/// A local entity overwritten from a wire entity: position and
/// velocity come from the wire hitbox, while the extent (constant per
/// entity instance) and the kind stay local.
pub open spec fn mirrored(e: Block, w: BlockRecv) -> Block {
    Block {
        rect: RectRecv { x: w.border.x, y: w.border.y, w: e.rect.w, h: e.rect.h },
        velocity_x: w.velocity_x,
        velocity_y: w.velocity_y,
        kind: e.kind,
    }
}

impl Block {
    /// Overwrites this entity's position and velocity from a wire
    /// entity, keeping its extent and kind.
    pub fn mirror_from(&mut self, w: &BlockRecv)
        ensures
            *final(self) == mirrored(*old(self), *w),
    {
        self.rect.x = w.border.x;
        self.rect.y = w.border.y;
        self.velocity_x = w.velocity_x;
        self.velocity_y = w.velocity_y;
    }
}

} // verus!
