//! Core simulation and synchronization engine for a two-paddle
//! ball-bounce game: the entity model for paddles and the ball, the
//! collision and scoring rules, the round state machine, the
//! input-to-velocity mapper, and the snapshot protocol by which a
//! client mirrors an authoritative tick stream.
//!
//! Rendering, keyboard polling and the network transport live outside
//! this crate; they exchange plain values with it.

use vstd::prelude::*;

pub mod entity;
pub mod input;
pub mod physics;
pub mod round;
pub mod sync;
pub mod text;
pub mod wire;

pub use entity::BlockKind;
pub use entity::RectRecv;
pub use entity::Block;

verus! {

/// Width of the world in units; hitboxes live in `0..WINDOW_WIDTH` horizontally.
pub const WINDOW_WIDTH: u32 = 800;

/// Height of the world in units.
pub const WINDOW_HEIGHT: u32 = 800;

/// Base unit from which entity sizes and speeds derive.
pub const BLOCK_SIZE: u32 = 5;

} // verus!
