use vstd::prelude::*;
use crate::address::Address;
use crate::constants::{DEFAULT_HOUSE_EDGE, MAX_BET_AMOUNT, MIN_BET_AMOUNT};
use crate::error::TrendXBetError;
use crate::events::PlatformInitialized;
use crate::state::{GlobalState, TreasuryState};
use crate::utils::ValidationUtils;

verus! {

/// Sets the platform up under `admin`, with the default house edge and
/// stake bounds and an empty treasury.
pub fn handler(admin: Address, current_time: i64) -> (r: Result<
    (GlobalState, TreasuryState, PlatformInitialized),
    TrendXBetError,
>)
    ensures
        r is Ok,
        r->Ok_0.0.wf(),
        r->Ok_0.0 == (GlobalState {
            admin,
            house_edge: DEFAULT_HOUSE_EDGE,
            min_bet_amount: MIN_BET_AMOUNT,
            max_bet_amount: MAX_BET_AMOUNT,
            total_volume: 0,
            total_fees_collected: 0,
            platform_created_at: current_time,
            is_paused: false,
        }),
        r->Ok_0.1 == (TreasuryState {
            authority: admin,
            total_deposits: 0,
            total_withdrawals: 0,
            platform_fees: 0,
            pending_payouts: 0,
            last_fee_collection: current_time,
        }),
        r->Ok_0.2 == (PlatformInitialized {
            admin,
            house_edge: DEFAULT_HOUSE_EDGE,
            min_bet_amount: MIN_BET_AMOUNT,
            max_bet_amount: MAX_BET_AMOUNT,
            timestamp: current_time,
        }),
{
    if let Err(e) = ValidationUtils::validate_house_edge(DEFAULT_HOUSE_EDGE) {
        return Err(e);
    }
    let global_state = GlobalState::initialize(
        admin,
        DEFAULT_HOUSE_EDGE,
        MIN_BET_AMOUNT,
        MAX_BET_AMOUNT,
        current_time,
    );
    let treasury = TreasuryState::initialize(admin, current_time);
    let event = PlatformInitialized {
        admin,
        house_edge: DEFAULT_HOUSE_EDGE,
        min_bet_amount: MIN_BET_AMOUNT,
        max_bet_amount: MAX_BET_AMOUNT,
        timestamp: current_time,
    };
    Ok((global_state, treasury, event))
}

} // verus!
