use vstd::prelude::*;
use crate::address::Address;
use crate::error::TrendXBetError;

verus! {

/// A user's custodial balance and lifetime statistics.
#[derive(Clone, Debug)]
pub struct UserState {
    /// The identity that owns this profile.
    pub authority: Address,
    pub username: String,
    /// Custodial balance.
    pub balance: u64,
    pub total_bets_placed: u64,
    pub total_bets_won: u64,
    /// Sum of all stakes placed.
    pub total_volume: u64,
    /// Sum of all payouts won.
    pub total_winnings: u64,
    pub profile_created_at: i64,
}

impl UserState {
    pub fn initialize(authority: Address, username: String, current_time: i64) -> (r: UserState)
        ensures
            r == (UserState {
                authority,
                username,
                balance: 0,
                total_bets_placed: 0,
                total_bets_won: 0,
                total_volume: 0,
                total_winnings: 0,
                profile_created_at: current_time,
            }),
    {
        UserState {
            authority,
            username,
            balance: 0,
            total_bets_placed: 0,
            total_bets_won: 0,
            total_volume: 0,
            total_winnings: 0,
            profile_created_at: current_time,
        }
    }

    pub fn update_username(&mut self, new_username: String)
        ensures
            *final(self) == (UserState { username: new_username, ..*old(self) }),
    {
        self.username = new_username;
    }

    pub fn add_balance(&mut self, amount: u64) -> (r: Result<(), TrendXBetError>)
        ensures
            r is Ok <==> old(self).balance + amount <= u64::MAX,
            r is Ok ==> *final(self) == (UserState {
                balance: (old(self).balance + amount) as u64,
                ..*old(self)
            }),
            r is Err ==> r == Err::<(), _>(TrendXBetError::MathematicalOverflow) && *final(self)
                == *old(self),
    {
        match self.balance.checked_add(amount) {
            Some(b) => {
                self.balance = b;
                Ok(())
            },
            None => Err(TrendXBetError::MathematicalOverflow),
        }
    }

    /// Debits the balance; a balance below `amount` is an insufficient
    /// balance, not an arithmetic failure.
    pub fn subtract_balance(&mut self, amount: u64) -> (r: Result<(), TrendXBetError>)
        ensures
            r is Ok <==> old(self).balance >= amount,
            r is Ok ==> *final(self) == (UserState {
                balance: (old(self).balance - amount) as u64,
                ..*old(self)
            }),
            r is Err ==> r == Err::<(), _>(TrendXBetError::InsufficientBalance) && *final(self)
                == *old(self),
    {
        if self.balance < amount {
            return Err(TrendXBetError::InsufficientBalance);
        }
        self.balance = self.balance - amount;
        Ok(())
    }

    pub fn record_bet_placed(&mut self, amount: u64) -> (r: Result<(), TrendXBetError>)
        ensures
            r is Ok <==> old(self).total_bets_placed + 1 <= u64::MAX && old(self).total_volume
                + amount <= u64::MAX,
            r is Ok ==> *final(self) == (UserState {
                total_bets_placed: (old(self).total_bets_placed + 1) as u64,
                total_volume: (old(self).total_volume + amount) as u64,
                ..*old(self)
            }),
            r is Err ==> r == Err::<(), _>(TrendXBetError::MathematicalOverflow) && *final(self)
                == *old(self),
    {
        if self.total_bets_placed == u64::MAX || self.total_volume > u64::MAX - amount {
            return Err(TrendXBetError::MathematicalOverflow);
        }
        self.total_bets_placed = self.total_bets_placed + 1;
        self.total_volume = self.total_volume + amount;
        Ok(())
    }

    pub fn record_bet_won(&mut self, winnings: u64) -> (r: Result<(), TrendXBetError>)
        ensures
            r is Ok <==> old(self).total_bets_won + 1 <= u64::MAX && old(self).total_winnings
                + winnings <= u64::MAX,
            r is Ok ==> *final(self) == (UserState {
                total_bets_won: (old(self).total_bets_won + 1) as u64,
                total_winnings: (old(self).total_winnings + winnings) as u64,
                ..*old(self)
            }),
            r is Err ==> r == Err::<(), _>(TrendXBetError::MathematicalOverflow) && *final(self)
                == *old(self),
    {
        if self.total_bets_won == u64::MAX || self.total_winnings > u64::MAX - winnings {
            return Err(TrendXBetError::MathematicalOverflow);
        }
        self.total_bets_won = self.total_bets_won + 1;
        self.total_winnings = self.total_winnings + winnings;
        Ok(())
    }

    /// Winnings less volume.
    pub fn net_profit(&self) -> (r: i128)
        ensures
            r == self.total_winnings - self.total_volume,
    {
        self.total_winnings as i128 - self.total_volume as i128
    }

    pub fn has_sufficient_balance(&self, amount: u64) -> (r: bool)
        ensures
            r == (self.balance >= amount),
    {
        self.balance >= amount
    }
}

} // verus!
