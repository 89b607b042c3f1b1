use vstd::prelude::*;
use crate::address::Address;
use crate::constants::BASIS_POINTS;
use crate::error::TrendXBetError;
use crate::utils::{parimutuel_of, MathUtils};

verus! {

/// Where a wager stands.
#[derive(Clone, Copy, Debug, PartialEq, Eq, Structural)]
pub enum BetStatus {
    /// Waiting for the match result.
    Active,
    /// Won; the payout awaits its claim.
    Won,
    Lost,
    /// Cancelled before the match started and refunded.
    Cancelled,
    /// Paid out; terminal.
    Claimed,
}

impl Default for BetStatus {
    fn default() -> (r: BetStatus)
        ensures
            r == BetStatus::Active,
    {
        BetStatus::Active
    }
}

/// A single wager.
#[derive(Clone, Copy, Debug, PartialEq, Eq, Structural)]
pub struct BetState {
    pub bettor: Address,
    /// The match wagered on.
    pub match_id: Address,
    pub amount: u64,
    /// 0 for the first team, 1 for the second.
    pub predicted_team: u8,
    /// Odds quoted at placement, in basis points.
    pub odds_at_time: u64,
    /// Payout quoted at placement.
    pub potential_payout: u64,
    pub status: BetStatus,
    pub bet_placed_at: i64,
    pub settled_at: Option<i64>,
    /// Set on settlement or cancellation.
    pub payout_amount: Option<u64>,
}

impl BetState {
    /// The amount a claim would pay.
    pub open spec fn claimable(&self) -> u64 {
        if (self.status == BetStatus::Won || self.status == BetStatus::Cancelled) && (match self.payout_amount {
            Some(p) => p > 0,
            None => false,
        }) {
            self.payout_amount->0
        } else {
            0
        }
    }

    pub fn initialize(
        bettor: Address,
        match_id: Address,
        amount: u64,
        predicted_team: u8,
        odds_at_time: u64,
        potential_payout: u64,
        current_time: i64,
    ) -> (r: BetState)
        ensures
            r == (BetState {
                bettor,
                match_id,
                amount,
                predicted_team,
                odds_at_time,
                potential_payout,
                status: BetStatus::Active,
                bet_placed_at: current_time,
                settled_at: None,
                payout_amount: None,
            }),
    {
        BetState {
            bettor,
            match_id,
            amount,
            predicted_team,
            odds_at_time,
            potential_payout,
            status: BetStatus::Active,
            bet_placed_at: current_time,
            settled_at: None,
            payout_amount: None,
        }
    }

    /// Cancels the wager, recording the full stake as its refund.
    pub fn cancel(&mut self, current_time: i64)
        ensures
            *final(self) == (BetState {
                status: BetStatus::Cancelled,
                settled_at: Some(current_time),
                payout_amount: Some(old(self).amount),
                ..*old(self)
            }),
    {
        self.status = BetStatus::Cancelled;
        self.settled_at = Some(current_time);
        self.payout_amount = Some(self.amount);
    }

    pub fn settle_as_won(&mut self, payout_amount: u64, current_time: i64)
        ensures
            *final(self) == (BetState {
                status: BetStatus::Won,
                settled_at: Some(current_time),
                payout_amount: Some(payout_amount),
                ..*old(self)
            }),
    {
        self.status = BetStatus::Won;
        self.settled_at = Some(current_time);
        self.payout_amount = Some(payout_amount);
    }

    pub fn settle_as_lost(&mut self, current_time: i64)
        ensures
            *final(self) == (BetState {
                status: BetStatus::Lost,
                settled_at: Some(current_time),
                payout_amount: Some(0),
                ..*old(self)
            }),
    {
        self.status = BetStatus::Lost;
        self.settled_at = Some(current_time);
        self.payout_amount = Some(0);
    }

    /// Marks a won or cancelled wager as paid out.
    pub fn claim_payout(&mut self) -> (r: Result<(), TrendXBetError>)
        ensures
            r is Ok <==> (old(self).status == BetStatus::Won || old(self).status
                == BetStatus::Cancelled),
            r is Ok ==> *final(self) == (BetState { status: BetStatus::Claimed, ..*old(self) }),
            r is Err ==> r == Err::<(), _>(TrendXBetError::BetNotFound) && *final(self) == *old(self),
    {
        if self.status != BetStatus::Won && self.status != BetStatus::Cancelled {
            return Err(TrendXBetError::BetNotFound);
        }
        self.status = BetStatus::Claimed;
        Ok(())
    }

    /// Still active, and the match has not started.
    pub fn can_be_cancelled(&self, match_start_time: i64, current_time: i64) -> (r: bool)
        ensures
            r == (self.status == BetStatus::Active && current_time < match_start_time),
    {
        self.status == BetStatus::Active && current_time < match_start_time
    }

    /// Won or cancelled, with a positive payout recorded.
    pub fn has_claimable_winnings(&self) -> (r: bool)
        ensures
            r == (self.claimable() > 0),
    {
        (self.status == BetStatus::Won || self.status == BetStatus::Cancelled) && match self.payout_amount {
            Some(p) => p > 0,
            None => false,
        }
    }

    pub fn get_claimable_amount(&self) -> (r: u64)
        ensures
            r == self.claimable(),
    {
        if self.has_claimable_winnings() {
            match self.payout_amount {
                Some(p) => p,
                None => 0,
            }
        } else {
            0
        }
    }

    pub fn is_winning_bet(&self, winning_team: u8) -> (r: bool)
        ensures
            r == (self.predicted_team == winning_team),
    {
        self.predicted_team == winning_team
    }

    /// This stake's parimutuel payout from the given pools.
    pub fn calculate_parimutuel_payout(
        &self,
        winning_pool: u64,
        total_pool: u64,
        house_edge: u16,
    ) -> (r: Result<u64, TrendXBetError>)
        ensures
            r == parimutuel_of(self.amount, winning_pool, total_pool, house_edge),
    {
        MathUtils::calculate_parimutuel_payout(self.amount, winning_pool, total_pool, house_edge)
    }

    /// Payout less stake for a settled win, the lost stake for a loss, and
    /// nothing for a wager still open or refunded.
    pub fn get_profit_loss(&self) -> (r: i128)
        ensures
            r == match self.status {
                BetStatus::Won | BetStatus::Claimed => (match self.payout_amount {
                    Some(p) => p as int,
                    None => 0,
                }) - self.amount,
                BetStatus::Lost => -self.amount,
                BetStatus::Cancelled | BetStatus::Active => 0,
            },
    {
        match self.status {
            BetStatus::Won | BetStatus::Claimed => {
                let payout: u64 = match self.payout_amount {
                    Some(p) => p,
                    None => 0,
                };
                payout as i128 - self.amount as i128
            },
            BetStatus::Lost => -(self.amount as i128),
            BetStatus::Cancelled | BetStatus::Active => 0,
        }
    }

    /// Profit per unit of stake realised by the recorded payout, in basis
    /// points; `None` before any payout is recorded.
    pub fn get_effective_odds(&self) -> (r: Option<u64>)
        requires
            match self.payout_amount {
                Some(p) => p > self.amount ==> self.amount > 0 && (p - self.amount)
                    * BASIS_POINTS <= u64::MAX,
                None => true,
            },
        ensures
            r == match self.payout_amount {
                Some(p) => if p > self.amount {
                    Some((((p - self.amount) * BASIS_POINTS) / (self.amount as int)) as u64)
                } else {
                    Some(0u64)
                },
                None => None,
            },
    {
        match self.payout_amount {
            Some(payout) => {
                if payout > self.amount {
                    let profit = payout - self.amount;
                    Some(profit * BASIS_POINTS / self.amount)
                } else {
                    Some(0)
                }
            },
            None => None,
        }
    }
}

} // verus!
