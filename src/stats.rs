//! Statistics of one session and of many sessions together.

use vstd::prelude::*;

use crate::hand::Outcome;

verus! {

/// The abstract state of a session's statistics.
pub struct RunStatsView {
    pub num_games: nat,
    pub wins: nat,
    pub losses: nat,
    pub pushes: nat,
    pub remaining_credits: int,
}

impl RunStatsView {
    /// Every game played was won, lost or pushed.
    pub open spec fn wf(self) -> bool {
        self.wins + self.losses + self.pushes == self.num_games
    }

    /// The statistics after one more game with the given outcome.
    pub open spec fn recorded(self, outcome: Outcome) -> RunStatsView {
        RunStatsView {
            num_games: self.num_games + 1,
            wins: self.wins + if outcome == Outcome::Win {
                1nat
            } else {
                0nat
            },
            losses: self.losses + if outcome == Outcome::Loss {
                1nat
            } else {
                0nat
            },
            pushes: self.pushes + if outcome == Outcome::Push {
                1nat
            } else {
                0nat
            },
            ..self
        }
    }
}

/// Statistics of one session: the games played, how they ended and the
/// credits left at the end.
pub struct RunStats {
    num_games: usize,
    wins: usize,
    losses: usize,
    pushes: usize,
    remaining_credits: isize,
}

impl View for RunStats {
    type V = RunStatsView;

    closed spec fn view(&self) -> RunStatsView {
        RunStatsView {
            num_games: self.num_games as nat,
            wins: self.wins as nat,
            losses: self.losses as nat,
            pushes: self.pushes as nat,
            remaining_credits: self.remaining_credits as int,
        }
    }
}

impl RunStats {
    /// Statistics of a session with no games yet.
    pub fn new() -> (r: RunStats)
        ensures
            r@ == (RunStatsView {
                num_games: 0,
                wins: 0,
                losses: 0,
                pushes: 0,
                remaining_credits: 0,
            }),
            r@.wf(),
    {
        RunStats { num_games: 0, wins: 0, losses: 0, pushes: 0, remaining_credits: 0 }
    }

    /// Records the end of one game.
    pub fn record_match_end(&mut self, outcome: Outcome)
        requires
            old(self)@.wf(),
            old(self)@.num_games < usize::MAX,
        ensures
            final(self)@ == old(self)@.recorded(outcome),
            final(self)@.wf(),
    {
        self.num_games += 1;
        match outcome {
            Outcome::Win => self.wins += 1,
            Outcome::Loss => self.losses += 1,
            Outcome::Push => self.pushes += 1,
        }
    }

    /// Records the credits left at the end of the session.
    pub fn record_credits(&mut self, credits: isize)
        ensures
            final(self)@ == (RunStatsView { remaining_credits: credits as int, ..old(self)@ }),
    {
        self.remaining_credits = credits;
    }

    /// Number of games played.
    pub fn num_games(&self) -> (r: usize)
        ensures
            r == self@.num_games,
    {
        self.num_games
    }

    /// Number of games won.
    pub fn wins(&self) -> (r: usize)
        ensures
            r == self@.wins,
    {
        self.wins
    }

    /// Number of games lost.
    pub fn losses(&self) -> (r: usize)
        ensures
            r == self@.losses,
    {
        self.losses
    }

    /// Number of games pushed.
    pub fn pushes(&self) -> (r: usize)
        ensures
            r == self@.pushes,
    {
        self.pushes
    }

    /// Credits left at the end of the session.
    pub fn remaining_credits(&self) -> (r: isize)
        ensures
            r == self@.remaining_credits,
    {
        self.remaining_credits
    }
}

/// The abstract state of the statistics over many sessions.
pub struct TotalRunStatsView {
    pub starting_credits: int,
    pub num_runs: nat,
    pub num_games: nat,
    pub wins: nat,
    pub losses: nat,
    pub pushes: nat,
    pub total_credits: int,
    pub num_walk_away_with_more: nat,
}

impl TotalRunStatsView {
    /// Every game counted was won, lost or pushed, and no more sessions
    /// ended ahead than were run.
    pub open spec fn wf(self) -> bool {
        &&& self.wins + self.losses + self.pushes == self.num_games
        &&& self.num_walk_away_with_more <= self.num_runs
    }

    /// The totals after one more session: counts and credits are summed,
    /// and a session that ended above the starting credits is counted as
    /// ahead.
    pub open spec fn merged(self, run: RunStatsView) -> TotalRunStatsView {
        TotalRunStatsView {
            num_runs: self.num_runs + 1,
            num_games: self.num_games + run.num_games,
            wins: self.wins + run.wins,
            losses: self.losses + run.losses,
            pushes: self.pushes + run.pushes,
            total_credits: self.total_credits + run.remaining_credits,
            num_walk_away_with_more: self.num_walk_away_with_more + if run.remaining_credits
                > self.starting_credits {
                1nat
            } else {
                0nat
            },
            ..self
        }
    }

    /// Whether the totals after merging `run` still fit their integer types.
    pub open spec fn has_room(self, run: RunStatsView) -> bool {
        &&& self.num_runs < usize::MAX
        &&& self.num_games + run.num_games <= usize::MAX
        &&& isize::MIN <= self.total_credits + run.remaining_credits <= isize::MAX
    }
}

/// Statistics over many sessions, merged one session at a time.
pub struct TotalRunStats {
    starting_credits: isize,
    num_runs: usize,
    num_games: usize,
    wins: usize,
    losses: usize,
    pushes: usize,
    total_credits: isize,
    num_walk_away_with_more: usize,
}

impl View for TotalRunStats {
    type V = TotalRunStatsView;

    closed spec fn view(&self) -> TotalRunStatsView {
        TotalRunStatsView {
            starting_credits: self.starting_credits as int,
            num_runs: self.num_runs as nat,
            num_games: self.num_games as nat,
            wins: self.wins as nat,
            losses: self.losses as nat,
            pushes: self.pushes as nat,
            total_credits: self.total_credits as int,
            num_walk_away_with_more: self.num_walk_away_with_more as nat,
        }
    }
}

impl TotalRunStats {
    /// Empty totals for sessions that each start with `starting_credits`.
    pub fn new(starting_credits: isize) -> (r: TotalRunStats)
        ensures
            r@ == (TotalRunStatsView {
                starting_credits: starting_credits as int,
                num_runs: 0,
                num_games: 0,
                wins: 0,
                losses: 0,
                pushes: 0,
                total_credits: 0,
                num_walk_away_with_more: 0,
            }),
            r@.wf(),
    {
        TotalRunStats {
            starting_credits,
            num_runs: 0,
            num_games: 0,
            wins: 0,
            losses: 0,
            pushes: 0,
            total_credits: 0,
            num_walk_away_with_more: 0,
        }
    }

    /// Whether `run` can be merged without overflowing a total.
    pub fn has_room_for(&self, run: &RunStats) -> (r: bool)
        ensures
            r == self@.has_room(run@),
    {
        self.num_runs < usize::MAX && run.num_games <= usize::MAX - self.num_games
            && self.total_credits as i128 + run.remaining_credits as i128 >= isize::MIN as i128
            && self.total_credits as i128 + run.remaining_credits as i128 <= isize::MAX as i128
    }

    /// Merges the statistics of one finished session.
    pub fn add_run(&mut self, run: RunStats)
        requires
            old(self)@.wf(),
            run@.wf(),
            old(self)@.has_room(run@),
        ensures
            final(self)@ == old(self)@.merged(run@),
            final(self)@.wf(),
    {
        self.num_runs += 1;
        self.num_games += run.num_games;
        self.wins += run.wins;
        self.losses += run.losses;
        self.pushes += run.pushes;
        self.total_credits += run.remaining_credits;
        if run.remaining_credits > self.starting_credits {
            self.num_walk_away_with_more += 1;
        }
    }

    /// Credits each session started with.
    pub fn starting_credits(&self) -> (r: isize)
        ensures
            r == self@.starting_credits,
    {
        self.starting_credits
    }

    /// Number of sessions merged.
    pub fn num_runs(&self) -> (r: usize)
        ensures
            r == self@.num_runs,
    {
        self.num_runs
    }

    /// Number of games over all sessions.
    pub fn num_games(&self) -> (r: usize)
        ensures
            r == self@.num_games,
    {
        self.num_games
    }

    /// Number of games won over all sessions.
    pub fn wins(&self) -> (r: usize)
        ensures
            r == self@.wins,
    {
        self.wins
    }

    /// Number of games lost over all sessions.
    pub fn losses(&self) -> (r: usize)
        ensures
            r == self@.losses,
    {
        self.losses
    }

    /// Number of games pushed over all sessions.
    pub fn pushes(&self) -> (r: usize)
        ensures
            r == self@.pushes,
    {
        self.pushes
    }

    /// Sum of the credits every session ended with.
    pub fn total_credits(&self) -> (r: isize)
        ensures
            r == self@.total_credits,
    {
        self.total_credits
    }

    /// Number of sessions that ended above the starting credits.
    pub fn num_walk_away_with_more(&self) -> (r: usize)
        ensures
            r == self@.num_walk_away_with_more,
    {
        self.num_walk_away_with_more
    }
}

/// Merge order does not matter: merging two sessions in either order gives
/// the same totals.
pub proof fn lemma_merge_commutes(
    totals: TotalRunStatsView,
    first: RunStatsView,
    second: RunStatsView,
)
    ensures
        totals.merged(first).merged(second) == totals.merged(second).merged(first),
{
}

} // verus!
