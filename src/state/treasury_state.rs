use vstd::prelude::*;
use crate::address::Address;
use crate::constants::SECONDS_PER_DAY;
use crate::error::TrendXBetError;

verus! {

/// Accounting of the custodial funds. No operation here moves currency: the
/// host moves it through its ledger in the same atomic step.
#[derive(Clone, Copy, Debug, PartialEq, Eq, Structural)]
pub struct TreasuryState {
    pub authority: Address,
    pub total_deposits: u64,
    pub total_withdrawals: u64,
    pub platform_fees: u64,
    pub pending_payouts: u64,
    pub last_fee_collection: i64,
}

impl TreasuryState {
    /// Funds held: everything that came in less everything that went out.
    pub open spec fn net(&self) -> int {
        self.total_deposits - self.total_withdrawals
    }

    /// Funds held and not owed to winners awaiting their claim.
    pub open spec fn available(&self) -> int {
        self.net() - self.pending_payouts
    }

    pub fn initialize(authority: Address, current_time: i64) -> (r: TreasuryState)
        ensures
            r == (TreasuryState {
                authority,
                total_deposits: 0,
                total_withdrawals: 0,
                platform_fees: 0,
                pending_payouts: 0,
                last_fee_collection: current_time,
            }),
    {
        TreasuryState {
            authority,
            total_deposits: 0,
            total_withdrawals: 0,
            platform_fees: 0,
            pending_payouts: 0,
            last_fee_collection: current_time,
        }
    }

    pub fn record_deposit(&mut self, amount: u64) -> (r: Result<(), TrendXBetError>)
        ensures
            r is Ok <==> old(self).total_deposits + amount <= u64::MAX,
            r is Ok ==> *final(self) == (TreasuryState {
                total_deposits: (old(self).total_deposits + amount) as u64,
                ..*old(self)
            }),
            r is Err ==> r == Err::<(), _>(TrendXBetError::MathematicalOverflow) && *final(self)
                == *old(self),
    {
        match self.total_deposits.checked_add(amount) {
            Some(v) => {
                self.total_deposits = v;
                Ok(())
            },
            None => Err(TrendXBetError::MathematicalOverflow),
        }
    }

    pub fn record_withdrawal(&mut self, amount: u64) -> (r: Result<(), TrendXBetError>)
        ensures
            r is Ok <==> old(self).total_withdrawals + amount <= u64::MAX,
            r is Ok ==> *final(self) == (TreasuryState {
                total_withdrawals: (old(self).total_withdrawals + amount) as u64,
                ..*old(self)
            }),
            r is Err ==> r == Err::<(), _>(TrendXBetError::MathematicalOverflow) && *final(self)
                == *old(self),
    {
        match self.total_withdrawals.checked_add(amount) {
            Some(v) => {
                self.total_withdrawals = v;
                Ok(())
            },
            None => Err(TrendXBetError::MathematicalOverflow),
        }
    }

    pub fn add_platform_fees(&mut self, amount: u64) -> (r: Result<(), TrendXBetError>)
        ensures
            r is Ok <==> old(self).platform_fees + amount <= u64::MAX,
            r is Ok ==> *final(self) == (TreasuryState {
                platform_fees: (old(self).platform_fees + amount) as u64,
                ..*old(self)
            }),
            r is Err ==> r == Err::<(), _>(TrendXBetError::MathematicalOverflow) && *final(self)
                == *old(self),
    {
        match self.platform_fees.checked_add(amount) {
            Some(v) => {
                self.platform_fees = v;
                Ok(())
            },
            None => Err(TrendXBetError::MathematicalOverflow),
        }
    }

    /// Takes collected fees out, recording the withdrawal.
    pub fn withdraw_platform_fees(&mut self, amount: u64) -> (r: Result<(), TrendXBetError>)
        ensures
            old(self).platform_fees < amount ==> r == Err::<(), _>(
                TrendXBetError::TreasuryInsufficientFunds,
            ),
            old(self).platform_fees >= amount && old(self).total_withdrawals + amount > u64::MAX
                ==> r == Err::<(), _>(TrendXBetError::MathematicalOverflow),
            r is Ok <==> old(self).platform_fees >= amount && old(self).total_withdrawals + amount
                <= u64::MAX,
            r is Ok ==> *final(self) == (TreasuryState {
                platform_fees: (old(self).platform_fees - amount) as u64,
                total_withdrawals: (old(self).total_withdrawals + amount) as u64,
                ..*old(self)
            }),
            r is Err ==> *final(self) == *old(self),
    {
        if self.platform_fees < amount {
            return Err(TrendXBetError::TreasuryInsufficientFunds);
        }
        if self.total_withdrawals > u64::MAX - amount {
            return Err(TrendXBetError::MathematicalOverflow);
        }
        self.platform_fees = self.platform_fees - amount;
        self.record_withdrawal(amount)
    }

    pub fn add_pending_payout(&mut self, amount: u64) -> (r: Result<(), TrendXBetError>)
        ensures
            r is Ok <==> old(self).pending_payouts + amount <= u64::MAX,
            r is Ok ==> *final(self) == (TreasuryState {
                pending_payouts: (old(self).pending_payouts + amount) as u64,
                ..*old(self)
            }),
            r is Err ==> r == Err::<(), _>(TrendXBetError::MathematicalOverflow) && *final(self)
                == *old(self),
    {
        match self.pending_payouts.checked_add(amount) {
            Some(v) => {
                self.pending_payouts = v;
                Ok(())
            },
            None => Err(TrendXBetError::MathematicalOverflow),
        }
    }

    /// Removes a paid-out amount from the pending payouts.
    pub fn remove_pending_payout(&mut self, amount: u64) -> (r: Result<(), TrendXBetError>)
        ensures
            r is Ok <==> old(self).pending_payouts >= amount,
            r is Ok ==> *final(self) == (TreasuryState {
                pending_payouts: (old(self).pending_payouts - amount) as u64,
                ..*old(self)
            }),
            r is Err ==> r == Err::<(), _>(TrendXBetError::MathematicalOverflow) && *final(self)
                == *old(self),
    {
        if self.pending_payouts < amount {
            return Err(TrendXBetError::MathematicalOverflow);
        }
        self.pending_payouts = self.pending_payouts - amount;
        Ok(())
    }

    pub fn update_fee_collection_time(&mut self, timestamp: i64)
        ensures
            *final(self) == (TreasuryState { last_fee_collection: timestamp, ..*old(self) }),
    {
        self.last_fee_collection = timestamp;
    }

    /// Deposits less withdrawals.
    pub fn net_balance(&self) -> (r: i128)
        ensures
            r == self.net(),
    {
        self.total_deposits as i128 - self.total_withdrawals as i128
    }

    /// Net balance less pending payouts.
    pub fn available_balance(&self) -> (r: i128)
        ensures
            r == self.available(),
    {
        self.net_balance() - self.pending_payouts as i128
    }

    /// Whether `amount` can leave without touching funds owed to winners.
    pub fn has_sufficient_funds(&self, amount: u64) -> (r: bool)
        ensures
            r == (self.available() >= amount),
    {
        self.available_balance() >= amount as i128
    }

    pub fn available_platform_fees(&self) -> (r: u64)
        ensures
            r == self.platform_fees,
    {
        self.platform_fees
    }

    /// Positive net balance, and pending payouts below 80% of all deposits.
    pub fn is_healthy(&self) -> (r: bool)
        ensures
            r == (self.net() > 0 && (self.total_deposits == 0 || 5 * self.pending_payouts < 4
                * self.total_deposits)),
    {
        self.net_balance() > 0 && (self.total_deposits == 0 || 5 * (self.pending_payouts as u128)
            < 4 * (self.total_deposits as u128))
    }

    /// Fees collected and not yet withdrawn.
    pub fn total_fees_lifetime(&self) -> (r: u64)
        ensures
            r == self.platform_fees,
    {
        self.platform_fees
    }

    /// Whole days since fees were last collected; zero if that lies ahead.
    pub fn days_since_last_collection(&self, current_time: i64) -> (r: u64)
        ensures
            current_time < self.last_fee_collection ==> r == 0,
            current_time >= self.last_fee_collection ==> r == (current_time
                - self.last_fee_collection) / SECONDS_PER_DAY as int,
    {
        let seconds_diff: i128 = current_time as i128 - self.last_fee_collection as i128;
        if seconds_diff < 0 {
            0
        } else {
            (seconds_diff / SECONDS_PER_DAY as i128) as u64
        }
    }
}

} // verus!
