//! The score, and the edge trigger that makes one catch count once.

use vstd::prelude::*;

verus! {

/// Session-wide counters.
#[derive(Clone, Copy, Debug, PartialEq, Eq, Structural)]
pub struct GameState {
    pub chars_typed: u32,
    /// Catches counted so far. It never goes down.
    pub score: usize,
    /// Set by the tick that raised the score; cleared by the first tick
    /// after it in which nothing is caught.
    pub score_changing: bool,
}

impl GameState {
    /// The score after one more point; it stops at `usize::MAX`.
    pub open spec fn next_score(self) -> usize {
        if self.score < usize::MAX {
            (self.score + 1) as usize
        } else {
            self.score
        }
    }

    /// The state after a tick in which the actors did (`overlapping`) or
    /// did not overlap. Only the first tick of a run of overlapping ticks
    /// scores.
    pub open spec fn after_check(self, overlapping: bool) -> GameState {
        if !overlapping {
            GameState { score_changing: false, ..self }
        } else if self.score_changing {
            self
        } else {
            GameState { score: self.next_score(), score_changing: true, ..self }
        }
    }

    /// Records the outcome of this tick's overlap test.
    pub fn record_check(&mut self, overlapping: bool)
        ensures
            *final(self) == old(self).after_check(overlapping),
            final(self).score >= old(self).score,
        no_unwind
    {
        if !overlapping {
            self.score_changing = false;
        } else if !self.score_changing {
            if self.score < usize::MAX {
                self.score = self.score + 1;
            }
            self.score_changing = true;
        }
    }
}

/// The state at the start of a session: nothing typed, nothing scored.
pub fn init_game_state() -> (gs: GameState)
    ensures
        gs == (GameState { chars_typed: 0, score: 0, score_changing: false }),
{
    GameState { chars_typed: 0, score: 0, score_changing: false }
}

/// A check never lowers the score, and raises it by at most one.
pub proof fn lemma_check_never_lowers_score(gs: GameState, overlapping: bool)
    ensures
        gs.score <= gs.after_check(overlapping).score <= gs.score + 1,
{
}

/// An overlap that lasts scores once: after the tick that scored, further
/// overlapping ticks change nothing, and the first tick without an overlap
/// only releases the trigger.
pub proof fn lemma_held_overlap_scores_once(gs: GameState)
    ensures
        gs.after_check(true).score_changing,
        gs.after_check(true).after_check(true) == gs.after_check(true),
        gs.after_check(false) == (GameState { score_changing: false, ..gs }),
{
}

} // verus!
