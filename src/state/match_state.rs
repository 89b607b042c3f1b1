use vstd::prelude::*;
use crate::address::Address;
use crate::error::TrendXBetError;
use crate::utils::{checked, odds_of, MathUtils};

verus! {

/// Lifecycle of a match: `Scheduled -> Live -> Ended -> Settled`, with
/// `Cancelled` reachable from any state that is not terminal.
#[derive(Clone, Copy, Debug, PartialEq, Eq, Structural)]
pub enum MatchStatus {
    /// Scheduled; betting may be open.
    Scheduled,
    /// Under way; betting is closed.
    Live,
    /// Over; waiting for the reported result.
    Ended,
    /// Result certified; terminal.
    Settled,
    /// Called off; terminal.
    Cancelled,
}

impl Default for MatchStatus {
    fn default() -> (r: MatchStatus)
        ensures
            r == MatchStatus::Scheduled,
    {
        MatchStatus::Scheduled
    }
}

/// A binary-outcome event and the stakes placed on each side of it.
#[derive(Clone, Debug)]
pub struct MatchState {
    pub match_id: Address,
    pub team1: String,
    pub team2: String,
    pub description: String,
    pub start_time: i64,
    pub end_time: i64,
    pub status: MatchStatus,
    /// Sum of the two side pools.
    pub total_pool: u64,
    /// Stakes on the first team.
    pub team1_pool: u64,
    /// Stakes on the second team.
    pub team2_pool: u64,
    pub total_bets: u64,
    /// 0 or 1 once a result is recorded.
    pub winning_team: Option<u8>,
    pub final_score: Option<String>,
    pub oracle_result_time: Option<i64>,
    pub is_betting_closed: bool,
    pub is_settled: bool,
    pub match_created_at: i64,
}

impl MatchState {
    /// The two side pools add up to the total pool.
    pub open spec fn pools_balanced(&self) -> bool {
        self.team1_pool + self.team2_pool == self.total_pool
    }

    /// The pool of a side: 0 names the first team, anything else the second.
    pub open spec fn pool_of(&self, team: u8) -> u64 {
        if team == 0 {
            self.team1_pool
        } else {
            self.team2_pool
        }
    }

    /// This match with `amount` more staked on `team` and one more bet.
    pub open spec fn with_bet(self, amount: u64, team: u8) -> MatchState {
        MatchState {
            total_pool: (self.total_pool + amount) as u64,
            team1_pool: if team == 0 {
                (self.team1_pool + amount) as u64
            } else {
                self.team1_pool
            },
            team2_pool: if team == 0 {
                self.team2_pool
            } else {
                (self.team2_pool + amount) as u64
            },
            total_bets: (self.total_bets + 1) as u64,
            ..self
        }
    }

    /// This match with `amount` less staked on `team` and one bet fewer.
    pub open spec fn without_bet(self, amount: u64, team: u8) -> MatchState {
        MatchState {
            total_pool: (self.total_pool - amount) as u64,
            team1_pool: if team == 0 {
                (self.team1_pool - amount) as u64
            } else {
                self.team1_pool
            },
            team2_pool: if team == 0 {
                self.team2_pool
            } else {
                (self.team2_pool - amount) as u64
            },
            total_bets: (self.total_bets - 1) as u64,
            ..self
        }
    }

    pub open spec fn can_add_bet(&self, amount: u64, team: u8) -> bool {
        &&& self.total_pool + amount <= u64::MAX
        &&& self.pool_of(team) + amount <= u64::MAX
        &&& self.total_bets + 1 <= u64::MAX
    }

    pub open spec fn can_remove_bet(&self, amount: u64, team: u8) -> bool {
        &&& self.total_pool >= amount
        &&& self.pool_of(team) >= amount
        &&& self.total_bets >= 1
    }

    /// Quoted odds of a side, in basis points, or the arithmetic failure
    /// that prevents a quote.
    pub open spec fn odds_spec(&self, team: u8) -> Result<u64, TrendXBetError> {
        checked(odds_of(self.pool_of(team), self.total_pool))
    }

    pub open spec fn betting_allowed(&self, current_time: i64) -> bool {
        &&& !self.is_betting_closed
        &&& self.status == MatchStatus::Scheduled
        &&& self.start_time <= current_time <= self.end_time
    }

    pub fn initialize(
        match_id: Address,
        team1: String,
        team2: String,
        description: String,
        start_time: i64,
        end_time: i64,
        current_time: i64,
    ) -> (r: MatchState)
        ensures
            r.pools_balanced(),
            r == (MatchState {
                match_id,
                team1,
                team2,
                description,
                start_time,
                end_time,
                status: MatchStatus::Scheduled,
                total_pool: 0,
                team1_pool: 0,
                team2_pool: 0,
                total_bets: 0,
                winning_team: None,
                final_score: None,
                oracle_result_time: None,
                is_betting_closed: false,
                is_settled: false,
                match_created_at: current_time,
            }),
    {
        MatchState {
            match_id,
            team1,
            team2,
            description,
            start_time,
            end_time,
            status: MatchStatus::Scheduled,
            total_pool: 0,
            team1_pool: 0,
            team2_pool: 0,
            total_bets: 0,
            winning_team: None,
            final_score: None,
            oracle_result_time: None,
            is_betting_closed: false,
            is_settled: false,
            match_created_at: current_time,
        }
    }

    pub fn update_status(&mut self, new_status: MatchStatus)
        ensures
            *final(self) == (MatchState { status: new_status, ..*old(self) }),
    {
        self.status = new_status;
    }

    /// Adds a stake to the total pool and to the pool of its side, and counts
    /// the bet, all or nothing.
    pub fn add_bet(&mut self, amount: u64, team: u8) -> (r: Result<(), TrendXBetError>)
        ensures
            r is Ok <==> old(self).can_add_bet(amount, team),
            r is Ok ==> *final(self) == old(self).with_bet(amount, team),
            r is Err ==> r == Err::<(), _>(TrendXBetError::MathematicalOverflow) && *final(self)
                == *old(self),
            old(self).pools_balanced() ==> final(self).pools_balanced(),
    {
        let team_pool = if team == 0 {
            self.team1_pool
        } else {
            self.team2_pool
        };
        if self.total_pool > u64::MAX - amount || team_pool > u64::MAX - amount || self.total_bets
            == u64::MAX {
            return Err(TrendXBetError::MathematicalOverflow);
        }
        self.total_pool = self.total_pool + amount;
        if team == 0 {
            self.team1_pool = self.team1_pool + amount;
        } else {
            self.team2_pool = self.team2_pool + amount;
        }
        self.total_bets = self.total_bets + 1;
        Ok(())
    }

    /// Exact inverse of `add_bet`, for cancellations.
    pub fn remove_bet(&mut self, amount: u64, team: u8) -> (r: Result<(), TrendXBetError>)
        ensures
            r is Ok <==> old(self).can_remove_bet(amount, team),
            r is Ok ==> *final(self) == old(self).without_bet(amount, team),
            r is Err ==> r == Err::<(), _>(TrendXBetError::MathematicalOverflow) && *final(self)
                == *old(self),
            old(self).pools_balanced() ==> final(self).pools_balanced(),
    {
        let team_pool = if team == 0 {
            self.team1_pool
        } else {
            self.team2_pool
        };
        if self.total_pool < amount || team_pool < amount || self.total_bets == 0 {
            return Err(TrendXBetError::MathematicalOverflow);
        }
        self.total_pool = self.total_pool - amount;
        if team == 0 {
            self.team1_pool = self.team1_pool - amount;
        } else {
            self.team2_pool = self.team2_pool - amount;
        }
        self.total_bets = self.total_bets - 1;
        Ok(())
    }

    /// Closes betting; there is no way to reopen it.
    pub fn close_betting(&mut self)
        ensures
            *final(self) == (MatchState { is_betting_closed: true, ..*old(self) }),
    {
        self.is_betting_closed = true;
    }

    /// Records the outcome and marks the match `Ended`. Calling it again
    /// overwrites the outcome.
    pub fn set_result(&mut self, winning_team: u8, final_score: String, oracle_time: i64)
        ensures
            *final(self) == (MatchState {
                winning_team: Some(winning_team),
                final_score: Some(final_score),
                oracle_result_time: Some(oracle_time),
                status: MatchStatus::Ended,
                ..*old(self)
            }),
    {
        self.winning_team = Some(winning_team);
        self.final_score = Some(final_score);
        self.oracle_result_time = Some(oracle_time);
        self.status = MatchStatus::Ended;
    }

    /// Marks the match settled; the caller has recorded the outcome.
    pub fn settle(&mut self)
        ensures
            *final(self) == (MatchState {
                is_settled: true,
                status: MatchStatus::Settled,
                ..*old(self)
            }),
    {
        self.is_settled = true;
        self.status = MatchStatus::Settled;
    }

    pub fn cancel(&mut self)
        ensures
            *final(self) == (MatchState { status: MatchStatus::Cancelled, ..*old(self) }),
    {
        self.status = MatchStatus::Cancelled;
    }

    /// Betting is open, the match is scheduled, and the time lies within
    /// `[start_time, end_time]`.
    pub fn is_betting_allowed(&self, current_time: i64) -> (r: bool)
        ensures
            r == self.betting_allowed(current_time),
    {
        !self.is_betting_closed && self.status == MatchStatus::Scheduled && current_time
            >= self.start_time && current_time <= self.end_time
    }

    pub fn has_started(&self, current_time: i64) -> (r: bool)
        ensures
            r == (current_time >= self.start_time),
    {
        current_time >= self.start_time
    }

    pub fn has_ended(&self, current_time: i64) -> (r: bool)
        ensures
            r == (current_time >= self.end_time),
    {
        current_time >= self.end_time
    }

    /// Quoted odds of a side, in basis points; an empty pool quotes 1:1.
    pub fn get_team_odds(&self, team: u8) -> (r: Result<u64, TrendXBetError>)
        ensures
            r == self.odds_spec(team),
    {
        let team_pool = if team == 0 {
            self.team1_pool
        } else {
            self.team2_pool
        };
        MathUtils::calculate_odds(team_pool, self.total_pool)
    }

    /// The pool of the winning side, once a result is recorded.
    pub fn get_winning_pool(&self) -> (r: Option<u64>)
        ensures
            r == match self.winning_team {
                Some(t) => Some(self.pool_of(t)),
                None => None,
            },
    {
        match self.winning_team {
            Some(team) => Some(
                if team == 0 {
                    self.team1_pool
                } else {
                    self.team2_pool
                },
            ),
            None => None,
        }
    }

    /// The pool of the losing side, once a result is recorded.
    pub fn get_losing_pool(&self) -> (r: Option<u64>)
        ensures
            r == match self.winning_team {
                Some(t) => Some(
                    if t == 0 {
                        self.team2_pool
                    } else {
                        self.team1_pool
                    },
                ),
                None => None,
            },
    {
        match self.winning_team {
            Some(team) => Some(
                if team == 0 {
                    self.team2_pool
                } else {
                    self.team1_pool
                },
            ),
            None => None,
        }
    }
}

/// The two side pools add up to the total pool after every `add_bet` and
/// every `remove_bet`, whether the call succeeds or fails.
pub proof fn lemma_pools_stay_balanced(m: MatchState, amount: u64, team: u8)
    requires
        m.pools_balanced(),
    ensures
        m.can_add_bet(amount, team) ==> m.with_bet(amount, team).pools_balanced(),
        m.can_remove_bet(amount, team) ==> m.without_bet(amount, team).pools_balanced(),
{
}

} // verus!
