use vstd::prelude::*;
use crate::address::Address;
use crate::constants::MAX_HOUSE_EDGE;
use crate::error::TrendXBetError;
use crate::events::{
    EmergencyWithdrawal, PlatformConfigUpdated, PlatformFeesWithdrawn, PlatformPaused,
    PlatformUnpaused,
};
use crate::state::{GlobalState, TreasuryState};
use crate::utils::{house_edge_check, ValidationUtils};

verus! {

/// The checks of a configuration change, in the order they are made. Each
/// supplied value is checked on its own; whenever a bound is supplied, the
/// resulting maximum must exceed the resulting minimum.
pub open spec fn config_check(
    global: GlobalState,
    admin: Address,
    house_edge: Option<u16>,
    min_bet_amount: Option<u64>,
    max_bet_amount: Option<u64>,
) -> Result<(), TrendXBetError> {
    let new_min = match min_bet_amount {
        Some(m) => m,
        None => global.min_bet_amount,
    };
    let new_max = match max_bet_amount {
        Some(m) => m,
        None => global.max_bet_amount,
    };
    if global.admin != admin {
        Err(TrendXBetError::Unauthorized)
    } else if house_edge is Some && house_edge_check(house_edge->0) is Err {
        Err(TrendXBetError::InvalidHouseEdge)
    } else if min_bet_amount == Some(0u64) {
        Err(TrendXBetError::BetAmountTooLow)
    } else if (min_bet_amount is Some || max_bet_amount is Some) && new_max <= new_min {
        Err(TrendXBetError::InvalidTimeConfiguration)
    } else {
        Ok(())
    }
}

/// Changes the house edge and the stake bounds; administrator only.
pub fn update_platform_config(
    global_state: &mut GlobalState,
    admin: Address,
    house_edge: Option<u16>,
    min_bet_amount: Option<u64>,
    max_bet_amount: Option<u64>,
    current_time: i64,
) -> (r: Result<PlatformConfigUpdated, TrendXBetError>)
    ensures
        r is Ok <==> config_check(
            *old(global_state),
            admin,
            house_edge,
            min_bet_amount,
            max_bet_amount,
        ) is Ok,
        r is Err ==> r->Err_0 == config_check(
            *old(global_state),
            admin,
            house_edge,
            min_bet_amount,
            max_bet_amount,
        )->Err_0 && *final(global_state) == *old(global_state),
        r is Ok ==> *final(global_state) == (GlobalState {
            house_edge: match house_edge {
                Some(e) => e,
                None => old(global_state).house_edge,
            },
            min_bet_amount: match min_bet_amount {
                Some(m) => m,
                None => old(global_state).min_bet_amount,
            },
            max_bet_amount: match max_bet_amount {
                Some(m) => m,
                None => old(global_state).max_bet_amount,
            },
            ..*old(global_state)
        }) && r->Ok_0 == (PlatformConfigUpdated {
            admin,
            old_house_edge: if house_edge is Some {
                Some(old(global_state).house_edge)
            } else {
                None
            },
            new_house_edge: house_edge,
            old_min_bet: if min_bet_amount is Some {
                Some(old(global_state).min_bet_amount)
            } else {
                None
            },
            new_min_bet: min_bet_amount,
            old_max_bet: if max_bet_amount is Some {
                Some(old(global_state).max_bet_amount)
            } else {
                None
            },
            new_max_bet: max_bet_amount,
            timestamp: current_time,
        }),
        // A house edge above the bound is never accepted.
        house_edge is Some && house_edge->0 > MAX_HOUSE_EDGE ==> r is Err,
        old(global_state).admin == admin && house_edge is Some && house_edge->0 > MAX_HOUSE_EDGE
            ==> r == Err::<PlatformConfigUpdated, _>(TrendXBetError::InvalidHouseEdge)
            && *final(global_state) == *old(global_state),
        old(global_state).wf() && r is Ok ==> final(global_state).wf(),
{
    if global_state.admin != admin {
        return Err(TrendXBetError::Unauthorized);
    }
    let old_house_edge = if house_edge.is_some() {
        Some(global_state.house_edge)
    } else {
        None
    };
    let old_min_bet = if min_bet_amount.is_some() {
        Some(global_state.min_bet_amount)
    } else {
        None
    };
    let old_max_bet = if max_bet_amount.is_some() {
        Some(global_state.max_bet_amount)
    } else {
        None
    };
    if let Some(edge) = house_edge {
        if let Err(e) = ValidationUtils::validate_house_edge(edge) {
            return Err(e);
        }
    }
    if let Some(min_amount) = min_bet_amount {
        if min_amount == 0 {
            return Err(TrendXBetError::BetAmountTooLow);
        }
    }
    if min_bet_amount.is_some() || max_bet_amount.is_some() {
        let new_min = match min_bet_amount {
            Some(m) => m,
            None => global_state.min_bet_amount,
        };
        let new_max = match max_bet_amount {
            Some(m) => m,
            None => global_state.max_bet_amount,
        };
        if new_max <= new_min {
            return Err(TrendXBetError::InvalidTimeConfiguration);
        }
    }
    global_state.update_config(house_edge, min_bet_amount, max_bet_amount);
    Ok(
        PlatformConfigUpdated {
            admin,
            old_house_edge,
            new_house_edge: house_edge,
            old_min_bet,
            new_min_bet: min_bet_amount,
            old_max_bet,
            new_max_bet: max_bet_amount,
            timestamp: current_time,
        },
    )
}

/// The checks of a fee withdrawal, in the order they are made.
pub open spec fn fee_withdrawal_check(
    treasury: TreasuryState,
    global: GlobalState,
    admin: Address,
    amount: u64,
) -> Result<(), TrendXBetError> {
    if global.admin != admin {
        Err(TrendXBetError::Unauthorized)
    } else if amount == 0 {
        Err(TrendXBetError::BetAmountTooLow)
    } else if treasury.platform_fees < amount || treasury.available() < amount {
        Err(TrendXBetError::TreasuryInsufficientFunds)
    } else if treasury.total_withdrawals + amount > u64::MAX {
        Err(TrendXBetError::MathematicalOverflow)
    } else {
        Ok(())
    }
}

/// Takes `amount` of the collected fees out of the treasury; administrator
/// only. The funds owed to winners are never touched. On success the host
/// moves `amount` from the treasury to the administrator.
pub fn withdraw_platform_fees(
    treasury: &mut TreasuryState,
    global_state: &GlobalState,
    admin: Address,
    amount: u64,
    current_time: i64,
) -> (r: Result<PlatformFeesWithdrawn, TrendXBetError>)
    ensures
        r is Ok <==> fee_withdrawal_check(*old(treasury), *global_state, admin, amount) is Ok,
        r is Err ==> r->Err_0 == fee_withdrawal_check(
            *old(treasury),
            *global_state,
            admin,
            amount,
        )->Err_0 && *final(treasury) == *old(treasury),
        r is Ok ==> final(treasury).net() == old(treasury).net() - amount,
        // Funds owed to winners stay covered.
        r is Ok ==> final(treasury).available() >= 0,
        r is Ok ==> *final(treasury) == (TreasuryState {
            platform_fees: (old(treasury).platform_fees - amount) as u64,
            total_withdrawals: (old(treasury).total_withdrawals + amount) as u64,
            last_fee_collection: current_time,
            ..*old(treasury)
        }) && r->Ok_0 == (PlatformFeesWithdrawn {
            admin,
            amount,
            remaining_fees: final(treasury).platform_fees,
            timestamp: current_time,
        }),
{
    if global_state.admin != admin {
        return Err(TrendXBetError::Unauthorized);
    }
    if amount == 0 {
        return Err(TrendXBetError::BetAmountTooLow);
    }
    if treasury.available_platform_fees() < amount || !treasury.has_sufficient_funds(amount) {
        return Err(TrendXBetError::TreasuryInsufficientFunds);
    }
    if let Err(e) = treasury.withdraw_platform_fees(amount) {
        return Err(e);
    }
    treasury.update_fee_collection_time(current_time);
    Ok(
        PlatformFeesWithdrawn {
            admin,
            amount,
            remaining_fees: treasury.available_platform_fees(),
            timestamp: current_time,
        },
    )
}

/// Pauses the platform; administrator only, and only while it runs.
pub fn pause_platform(global_state: &mut GlobalState, admin: Address, current_time: i64) -> (r:
    Result<PlatformPaused, TrendXBetError>)
    ensures
        old(global_state).admin != admin ==> r == Err::<PlatformPaused, _>(
            TrendXBetError::Unauthorized,
        ),
        old(global_state).admin == admin && old(global_state).is_paused ==> r == Err::<
            PlatformPaused,
            _,
        >(TrendXBetError::PlatformPaused),
        r is Ok <==> old(global_state).admin == admin && !old(global_state).is_paused,
        r is Err ==> *final(global_state) == *old(global_state),
        r is Ok ==> *final(global_state) == (GlobalState { is_paused: true, ..*old(global_state) })
            && r->Ok_0 == (PlatformPaused { admin, timestamp: current_time }),
{
    if global_state.admin != admin {
        return Err(TrendXBetError::Unauthorized);
    }
    if !global_state.is_operational() {
        return Err(TrendXBetError::PlatformPaused);
    }
    global_state.pause();
    Ok(PlatformPaused { admin, timestamp: current_time })
}

/// Resumes the platform; administrator only, and only while it is paused.
pub fn unpause_platform(global_state: &mut GlobalState, admin: Address, current_time: i64) -> (r:
    Result<PlatformUnpaused, TrendXBetError>)
    ensures
        old(global_state).admin != admin ==> r == Err::<PlatformUnpaused, _>(
            TrendXBetError::Unauthorized,
        ),
        old(global_state).admin == admin && !old(global_state).is_paused ==> r == Err::<
            PlatformUnpaused,
            _,
        >(TrendXBetError::AlreadyInitialized),
        r is Ok <==> old(global_state).admin == admin && old(global_state).is_paused,
        r is Err ==> *final(global_state) == *old(global_state),
        r is Ok ==> *final(global_state) == (GlobalState { is_paused: false, ..*old(global_state) })
            && r->Ok_0 == (PlatformUnpaused { admin, timestamp: current_time }),
{
    if global_state.admin != admin {
        return Err(TrendXBetError::Unauthorized);
    }
    if global_state.is_operational() {
        return Err(TrendXBetError::AlreadyInitialized);
    }
    global_state.unpause();
    Ok(PlatformUnpaused { admin, timestamp: current_time })
}

/// The checks of an emergency withdrawal, in the order they are made.
pub open spec fn emergency_check(
    treasury: TreasuryState,
    global: GlobalState,
    admin: Address,
    amount: u64,
) -> Result<(), TrendXBetError> {
    if global.admin != admin {
        Err(TrendXBetError::Unauthorized)
    } else if amount == 0 {
        Err(TrendXBetError::BetAmountTooLow)
    } else if treasury.available() < amount {
        Err(TrendXBetError::TreasuryInsufficientFunds)
    } else if treasury.total_withdrawals + amount > u64::MAX {
        Err(TrendXBetError::MathematicalOverflow)
    } else {
        Ok(())
    }
}

/// Withdraws treasury funds not owed to winners; administrator only. On
/// success the host moves `amount` from the treasury to the administrator.
pub fn emergency_withdraw(
    treasury: &mut TreasuryState,
    global_state: &GlobalState,
    admin: Address,
    amount: u64,
    current_time: i64,
) -> (r: Result<EmergencyWithdrawal, TrendXBetError>)
    ensures
        r is Ok <==> emergency_check(*old(treasury), *global_state, admin, amount) is Ok,
        r is Err ==> r->Err_0 == emergency_check(*old(treasury), *global_state, admin, amount)->Err_0
            && *final(treasury) == *old(treasury),
        r is Ok ==> final(treasury).net() == old(treasury).net() - amount,
        // Funds owed to winners stay covered.
        r is Ok ==> final(treasury).available() >= 0,
        r is Ok ==> *final(treasury) == (TreasuryState {
            total_withdrawals: (old(treasury).total_withdrawals + amount) as u64,
            ..*old(treasury)
        }) && r->Ok_0 == (EmergencyWithdrawal { admin, amount, timestamp: current_time }),
{
    if global_state.admin != admin {
        return Err(TrendXBetError::Unauthorized);
    }
    if amount == 0 {
        return Err(TrendXBetError::BetAmountTooLow);
    }
    if !treasury.has_sufficient_funds(amount) {
        return Err(TrendXBetError::TreasuryInsufficientFunds);
    }
    if let Err(e) = treasury.record_withdrawal(amount) {
        return Err(e);
    }
    Ok(EmergencyWithdrawal { admin, amount, timestamp: current_time })
}

} // verus!
