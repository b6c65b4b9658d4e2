//! Physics and collision rules for the ball: wall reflection, paddle
//! reflection, goal detection with scoring, and the ball restart.

use vstd::prelude::*;
use crate::entity::Block;
use crate::WINDOW_WIDTH;
use crate::WINDOW_HEIGHT;

verus! {

/// The ball's hitbox touches or crosses the left boundary or its right
/// edge touches or crosses the right boundary.
pub open spec fn hits_side_wall(b: Block) -> bool {
    b.rect.x <= 0 || b.rect.x + b.rect.w >= WINDOW_WIDTH
}

/// The ball's hitbox touches or crosses the bouncing vertical
/// boundary. The opposite edge never bounces: there the ball scores.
pub open spec fn hits_bounce_wall(b: Block) -> bool {
    b.rect.y <= 0
}

/// The ball has just reached the paddle's row (either vertical edge of
/// the ball coincides with the paddle's top edge) and its horizontal
/// position lies within the paddle's horizontal span.
pub open spec fn paddle_contact(ball: Block, paddle: Block) -> bool {
    (ball.rect.y == paddle.rect.y || ball.rect.y + ball.rect.h == paddle.rect.y)
        && paddle.rect.x <= ball.rect.x <= paddle.rect.x + paddle.rect.w
}

/// The ball has fully crossed the scoring boundary: the player away
/// from that boundary is awarded a goal.
pub open spec fn goal_against_player1(b: Block) -> bool {
    b.rect.y + b.rect.h <= 0
}

/// The ball has reached the boundary defended by the far player.
pub open spec fn goal_against_player2(b: Block) -> bool {
    b.rect.y >= WINDOW_HEIGHT
}

/// The ball after a goal or a round end: re-centered to the world
/// midpoint with zero velocity, extent and kind kept.
pub open spec fn restarted(b: Block) -> Block {
    Block {
        rect: crate::entity::RectRecv {
            x: (WINDOW_WIDTH / 2) as i32,
            y: (WINDOW_HEIGHT / 2) as i32,
            w: b.rect.w,
            h: b.rect.h,
        },
        velocity_x: 0,
        velocity_y: 0,
        kind: b.kind,
    }
}

impl Block {
    /// Wall bounce: the horizontal velocity sign flips if and only if
    /// the hitbox touches either side boundary, and the vertical sign
    /// flips if and only if it touches the bouncing vertical boundary
    /// (never the scoring one). The position does not change.
    pub fn handle_wall(&mut self)
        requires
            old(self).kind == crate::entity::BlockKind::Ball,
            old(self).velocity_x > i32::MIN,
            old(self).velocity_y > i32::MIN,
        ensures
            final(self).velocity_x == if hits_side_wall(*old(self)) {
                -old(self).velocity_x as int
            } else {
                old(self).velocity_x as int
            },
            final(self).velocity_y == if hits_bounce_wall(*old(self)) {
                -old(self).velocity_y as int
            } else {
                old(self).velocity_y as int
            },
            final(self).rect == old(self).rect,
            final(self).kind == old(self).kind,
    {
        if self.rect.x <= 0 || self.rect.x as i64 + self.rect.w as i64 >= WINDOW_WIDTH as i64 {
            self.velocity_x = -self.velocity_x;
        }
        if self.rect.y <= 0 {
            self.velocity_y = -self.velocity_y;
        }
    }

    /// Paddle bounce: the vertical velocity sign flips, and the call
    /// reports a collision, exactly when the ball's top or bottom edge
    /// coincides with the paddle's top edge and the horizontal spans
    /// overlap. Nothing else changes.
    pub fn react_object(&mut self, object: &Block) -> (collided: bool)
        requires
            old(self).kind == crate::entity::BlockKind::Ball,
            old(self).velocity_y > i32::MIN,
        ensures
            collided == paddle_contact(*old(self), *object),
            final(self).velocity_y == if collided {
                -old(self).velocity_y as int
            } else {
                old(self).velocity_y as int
            },
            final(self).velocity_x == old(self).velocity_x,
            final(self).rect == old(self).rect,
            final(self).kind == old(self).kind,
    {
        let on_row = self.rect.y == object.rect.y
            || self.rect.y as i64 + self.rect.h as i64 == object.rect.y as i64;
        let in_span = object.rect.x <= self.rect.x
            && self.rect.x as i64 <= object.rect.x as i64 + object.rect.w as i64;
        if on_row && in_span {
            self.velocity_y = -self.velocity_y;
            return true;
        }
        false
    }

    /// Goal handling: when the ball has crossed a scoring boundary,
    /// the opposing player's score increments and the ball restarts
    /// (re-centered, zero velocity), all in the same tick. Away from
    /// both boundaries, nothing changes. The two boundaries cannot be
    /// crossed at once, since the hitbox height is non-negative.
    pub fn handle_score(&mut self, score: &mut (u32, u32))
        requires
            old(self).kind == crate::entity::BlockKind::Ball,
            old(score).0 < u32::MAX,
            old(score).1 < u32::MAX,
        ensures
            goal_against_player1(*old(self)) ==> (
                *final(score) == (old(score).0, (old(score).1 + 1) as u32)
                && *final(self) == restarted(*old(self))
            ),
            goal_against_player2(*old(self)) ==> (
                *final(score) == ((old(score).0 + 1) as u32, old(score).1)
                && *final(self) == restarted(*old(self))
            ),
            !goal_against_player1(*old(self)) && !goal_against_player2(*old(self)) ==> (
                *final(score) == *old(score) && *final(self) == *old(self)
            ),
    {
        if self.rect.y as i64 + self.rect.h as i64 <= 0 {
            score.1 = score.1 + 1;
            self.restart();
        } else if self.rect.y as i64 >= WINDOW_HEIGHT as i64 {
            score.0 = score.0 + 1;
            self.restart();
        }
    }

    /// Re-centers the ball to the world midpoint and zeroes its
    /// velocity; extent and kind are kept.
    pub fn restart(&mut self)
        ensures
            *final(self) == restarted(*old(self)),
    {
        self.rect.x = (WINDOW_WIDTH / 2) as i32;
        self.rect.y = (WINDOW_HEIGHT / 2) as i32;
        self.velocity_x = 0;
        self.velocity_y = 0;
    }
}

} // verus!
