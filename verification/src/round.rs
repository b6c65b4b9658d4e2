//! Round state machine: score, running flag and display message, with
//! the serve, goal-driven scoring (in `physics`) and win transitions.

use vstd::prelude::*;
use crate::entity::Block;
use crate::entity::BlockKind;
use crate::physics::restarted;
use crate::text::decimal;

verus! {

/// A match ends as soon as either player's score reaches this.
pub const WIN_THRESHOLD: u32 = 5;

/// The whole per-match state outside the entities: the score for
/// (player1, player2), whether a round is running, and the message
/// shown while no round runs.
#[derive(Debug)]
pub struct MatchState {
    pub score: (u32, u32),
    pub running: bool,
    pub message: String,
}

/// Either player has just reached the win threshold.
pub open spec fn win_occurs(s: MatchState) -> bool {
    s.score.0 == WIN_THRESHOLD || s.score.1 == WIN_THRESHOLD
}

/// The terminal message: it names the winning player.
pub open spec fn winner_message(s: MatchState) -> Seq<char> {
    if s.score.0 == WIN_THRESHOLD {
        "Player 1 Won!"@
    } else {
        "Player 2 Won!"@
    }
}

/// How the win transition halts a match: the round stops, the score
/// stands, and the message names the winner.
pub open spec fn halted_by_win(s: MatchState, t: MatchState) -> bool {
    !t.running && t.score == s.score && t.message@ == winner_message(s)
}

/// The score a serve leaves behind: starting a round resets it, a
/// serve inside a running round keeps it.
pub open spec fn serve_score(s: MatchState) -> (u32, u32) {
    if s.running {
        s.score
    } else {
        (0u32, 0u32)
    }
}

/// The status line while a round runs, e.g. `Score: (2, 1)`.
pub open spec fn score_line(score: (u32, u32)) -> Seq<char> {
    "Score: ("@ + decimal(score.0 as nat) + ", "@ + decimal(score.1 as nat) + ")"@
}

/// The horizontal serve speed, in units per tick.
pub open spec fn serve_velocity_x() -> int {
    5 * crate::BLOCK_SIZE
}

/// The vertical serve speed, in units per tick.
pub open spec fn serve_velocity_y() -> int {
    1 * crate::BLOCK_SIZE
}

impl MatchState {
    /// A fresh match: nothing scored, no round running, and a prompt
    /// inviting the first serve.
    pub fn new() -> (s: MatchState)
        ensures
            s.score == (0u32, 0u32),
            !s.running,
            s.message@ == "Press enter."@,
    {
        MatchState { score: (0, 0), running: false, message: String::from_str("Press enter.") }
    }

    /// The serve action. If the ball is exactly at rest it is given
    /// the serve velocity; and if no round was running, one starts:
    /// the score resets to (0, 0) and `running` becomes true. The
    /// status line then shows the score again in place of the message.
    pub fn serve(&mut self, ball: &mut Block)
        requires
            old(ball).kind == BlockKind::Ball,
        ensures
            final(self).running,
            final(self).score == serve_score(*old(self)),
            final(self).message == old(self).message,
            old(ball).velocity_x == 0 && old(ball).velocity_y == 0 ==> (
                final(ball).velocity_x == serve_velocity_x()
                && final(ball).velocity_y == serve_velocity_y()
            ),
            !(old(ball).velocity_x == 0 && old(ball).velocity_y == 0) ==> (
                final(ball).velocity_x == old(ball).velocity_x
                && final(ball).velocity_y == old(ball).velocity_y
            ),
            final(ball).rect == old(ball).rect,
            final(ball).kind == old(ball).kind,
    {
        if ball.velocity_x == 0 && ball.velocity_y == 0 {
            ball.velocity_x = (crate::BLOCK_SIZE * 5) as i32;
            ball.velocity_y = (crate::BLOCK_SIZE * 1) as i32;
        }
        if !self.running {
            self.running = true;
            self.score = (0, 0);
        }
    }

    /// The win transition. When either player's score has reached the
    /// threshold, the round stops: `running` becomes false, the
    /// message names the winner, and the ball restarts. Otherwise
    /// nothing changes.
    pub fn check_win(&mut self, ball: &mut Block)
        ensures
            win_occurs(*old(self)) ==> (
                halted_by_win(*old(self), *final(self))
                && *final(ball) == restarted(*old(ball))
            ),
            !win_occurs(*old(self)) ==> (
                *final(self) == *old(self) && *final(ball) == *old(ball)
            ),
    {
        if self.score.0 == WIN_THRESHOLD {
            self.running = false;
            self.message = String::from_str("Player 1 Won!");
            ball.restart();
        } else if self.score.1 == WIN_THRESHOLD {
            self.running = false;
            self.message = String::from_str("Player 2 Won!");
            ball.restart();
        }
    }

    /// The status line: the current score while a round runs, the
    /// stored message (prompt or winner announcement) while none does.
    /// A pure function of the state.
    pub fn status_text(&self) -> (s: String)
        ensures
            self.running ==> s@ == score_line(self.score),
            !self.running ==> s@ == self.message@,
    {
        if self.running {
            let mut s = String::from_str("Score: (");
            let p1 = crate::text::u32_to_string(self.score.0);
            s.append(p1.as_str());
            s.append(", ");
            let p2 = crate::text::u32_to_string(self.score.1);
            s.append(p2.as_str());
            s.append(")");
            proof {
                assert(s@ =~= score_line(self.score));
            }
            s
        } else {
            self.message.clone()
        }
    }
}

/// A won round halts with a message naming the winner, and a fresh
/// serve resumes play from a clean score: any state the win transition
/// leaves behind has `running` false and the winner's name in the
/// message, and the serve transition applied to it yields the score
/// (0, 0) (`serve` itself ensures that `running` becomes true).
pub proof fn lemma_win_then_serve(s: MatchState, t: MatchState)
    requires
        win_occurs(s),
        halted_by_win(s, t),
    ensures
        !t.running,
        serve_score(t) == (0u32, 0u32),
        s.score.0 == WIN_THRESHOLD ==> t.message@ == "Player 1 Won!"@,
        s.score.0 != WIN_THRESHOLD ==> t.message@ == "Player 2 Won!"@,
{
}

} // verus!
