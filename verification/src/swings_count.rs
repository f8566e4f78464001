//! The score: one point for every swing of a play session.

use vstd::prelude::*;

verus! {

/// Counts the swings of the session that is being played.
#[derive(Clone, Copy, Debug, PartialEq, Eq)]
pub struct Scoreboard {
    pub score: usize,
}

impl View for Scoreboard {
    type V = nat;

    open spec fn view(&self) -> nat {
        self.score as nat
    }
}

impl Default for Scoreboard {
    fn default() -> (scoreboard: Scoreboard)
        ensures
            scoreboard@ == 0,
    {
        Scoreboard { score: 0 }
    }
}

impl Scoreboard {
    /// Counts one more swing.
    pub fn record_swing(&mut self)
        requires
            old(self).score < usize::MAX,
        ensures
            final(self)@ == old(self)@ + 1,
    {
        self.score = self.score + 1;
    }
}

/// The final score of a session, told once when the session ends.
#[derive(Clone, Copy, Debug, PartialEq, Eq)]
pub struct GameOver {
    pub final_score: usize,
}

impl View for GameOver {
    type V = nat;

    open spec fn view(&self) -> nat {
        self.final_score as nat
    }
}

/// The scoreboard of a session that begins: no swing yet.
pub fn insert_score() -> (scoreboard: Scoreboard)
    ensures
        scoreboard@ == 0,
{
    Scoreboard { score: 0 }
}

/// Ends a session: gives the scoreboard up for the notice of its final score.
pub fn remove_score(scoreboard: Scoreboard) -> (notice: GameOver)
    ensures
        notice@ == scoreboard@,
{
    GameOver { final_score: scoreboard.score }
}

} // verus!
