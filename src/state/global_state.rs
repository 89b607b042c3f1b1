use vstd::prelude::*;
use crate::address::Address;
use crate::constants::MAX_HOUSE_EDGE;
use crate::error::TrendXBetError;

verus! {

/// Platform-wide configuration and lifetime counters.
#[derive(Clone, Copy, Debug, PartialEq, Eq, Structural)]
pub struct GlobalState {
    /// The only identity allowed to administer the platform.
    pub admin: Address,
    /// House edge in basis points (500 = 5%).
    pub house_edge: u16,
    pub min_bet_amount: u64,
    pub max_bet_amount: u64,
    pub total_volume: u64,
    pub total_fees_collected: u64,
    pub platform_created_at: i64,
    pub is_paused: bool,
}

impl GlobalState {
    /// A configuration whose house edge is at most 50% and whose stake
    /// bounds are positive and ordered.
    pub open spec fn wf(&self) -> bool {
        &&& self.house_edge <= MAX_HOUSE_EDGE
        &&& 0 < self.min_bet_amount < self.max_bet_amount
    }

    pub fn initialize(
        admin: Address,
        house_edge: u16,
        min_bet_amount: u64,
        max_bet_amount: u64,
        current_time: i64,
    ) -> (r: GlobalState)
        requires
            house_edge <= MAX_HOUSE_EDGE,
            0 < min_bet_amount < max_bet_amount,
        ensures
            r.wf(),
            r == (GlobalState {
                admin,
                house_edge,
                min_bet_amount,
                max_bet_amount,
                total_volume: 0,
                total_fees_collected: 0,
                platform_created_at: current_time,
                is_paused: false,
            }),
    {
        GlobalState {
            admin,
            house_edge,
            min_bet_amount,
            max_bet_amount,
            total_volume: 0,
            total_fees_collected: 0,
            platform_created_at: current_time,
            is_paused: false,
        }
    }

    /// Overwrites each supplied setting; the caller validates them.
    pub fn update_config(
        &mut self,
        house_edge: Option<u16>,
        min_bet_amount: Option<u64>,
        max_bet_amount: Option<u64>,
    )
        ensures
            *final(self) == (GlobalState {
                house_edge: match house_edge {
                    Some(e) => e,
                    None => old(self).house_edge,
                },
                min_bet_amount: match min_bet_amount {
                    Some(m) => m,
                    None => old(self).min_bet_amount,
                },
                max_bet_amount: match max_bet_amount {
                    Some(m) => m,
                    None => old(self).max_bet_amount,
                },
                ..*old(self)
            }),
    {
        if let Some(edge) = house_edge {
            self.house_edge = edge;
        }
        if let Some(min_amount) = min_bet_amount {
            self.min_bet_amount = min_amount;
        }
        if let Some(max_amount) = max_bet_amount {
            self.max_bet_amount = max_amount;
        }
    }

    pub fn add_volume(&mut self, amount: u64) -> (r: Result<(), TrendXBetError>)
        ensures
            r is Ok <==> old(self).total_volume + amount <= u64::MAX,
            r is Ok ==> *final(self) == (GlobalState {
                total_volume: (old(self).total_volume + amount) as u64,
                ..*old(self)
            }),
            r is Err ==> r == Err::<(), _>(TrendXBetError::MathematicalOverflow) && *final(self)
                == *old(self),
    {
        match self.total_volume.checked_add(amount) {
            Some(v) => {
                self.total_volume = v;
                Ok(())
            },
            None => Err(TrendXBetError::MathematicalOverflow),
        }
    }

    pub fn add_fees(&mut self, amount: u64) -> (r: Result<(), TrendXBetError>)
        ensures
            r is Ok <==> old(self).total_fees_collected + amount <= u64::MAX,
            r is Ok ==> *final(self) == (GlobalState {
                total_fees_collected: (old(self).total_fees_collected + amount) as u64,
                ..*old(self)
            }),
            r is Err ==> r == Err::<(), _>(TrendXBetError::MathematicalOverflow) && *final(self)
                == *old(self),
    {
        match self.total_fees_collected.checked_add(amount) {
            Some(v) => {
                self.total_fees_collected = v;
                Ok(())
            },
            None => Err(TrendXBetError::MathematicalOverflow),
        }
    }

    pub fn pause(&mut self)
        ensures
            *final(self) == (GlobalState { is_paused: true, ..*old(self) }),
    {
        self.is_paused = true;
    }

    pub fn unpause(&mut self)
        ensures
            *final(self) == (GlobalState { is_paused: false, ..*old(self) }),
    {
        self.is_paused = false;
    }

    pub fn is_operational(&self) -> (r: bool)
        ensures
            r == !self.is_paused,
    {
        !self.is_paused
    }
}

} // verus!
