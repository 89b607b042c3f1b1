use vstd::prelude::*;
use crate::address::Address;
use crate::error::TrendXBetError;
use crate::events::{FundsDeposited, FundsWithdrawn, UserProfileCreated, UserProfileUpdated};
use crate::state::{TreasuryState, UserState};
use crate::utils::{username_check, ValidationUtils};

verus! {

/// Registers a profile for `user` under a valid username.
pub fn create_user_profile(user: Address, username: String, current_time: i64) -> (r: Result<
    (UserState, UserProfileCreated),
    TrendXBetError,
>)
    ensures
        r is Ok <==> username_check(username@) is Ok,
        r is Err ==> r->Err_0 == username_check(username@)->Err_0,
        r is Ok ==> r->Ok_0.0 == (UserState {
            authority: user,
            username,
            balance: 0,
            total_bets_placed: 0,
            total_bets_won: 0,
            total_volume: 0,
            total_winnings: 0,
            profile_created_at: current_time,
        }) && r->Ok_0.1 == (UserProfileCreated { user, username, timestamp: current_time }),
{
    if let Err(e) = ValidationUtils::validate_username(username.as_str()) {
        return Err(e);
    }
    let event_name = username.clone();
    let state = UserState::initialize(user, username, current_time);
    Ok((state, UserProfileCreated { user, username: event_name, timestamp: current_time }))
}

/// Changes the username of the caller's own profile, if a new one is given.
pub fn update_user_profile(
    user_state: &mut UserState,
    authority: Address,
    username: Option<String>,
    current_time: i64,
) -> (r: Result<UserProfileUpdated, TrendXBetError>)
    ensures
        old(user_state).authority != authority ==> r == Err::<UserProfileUpdated, _>(
            TrendXBetError::Unauthorized,
        ),
        old(user_state).authority == authority && username is Some ==> (r is Err
            <==> username_check(username->0@) is Err),
        old(user_state).authority == authority && username is Some && r is Err ==> r->Err_0
            == username_check(username->0@)->Err_0,
        old(user_state).authority == authority && username is None ==> r is Ok,
        r is Err ==> *final(user_state) == *old(user_state),
        r is Ok ==> *final(user_state) == (UserState {
            username: match username {
                Some(n) => n,
                None => old(user_state).username,
            },
            ..*old(user_state)
        }) && r->Ok_0 == (UserProfileUpdated {
            user: authority,
            new_username: username,
            timestamp: current_time,
        }),
{
    if user_state.authority != authority {
        return Err(TrendXBetError::Unauthorized);
    }
    let event_name = match &username {
        Some(n) => {
            if let Err(e) = ValidationUtils::validate_username(n.as_str()) {
                return Err(e);
            }
            Some(n.clone())
        },
        None => None,
    };
    if let Some(new_username) = username {
        user_state.update_username(new_username);
    }
    Ok(UserProfileUpdated { user: authority, new_username: event_name, timestamp: current_time })
}

/// The checks of a deposit, in the order they are made.
pub open spec fn deposit_check(
    user: UserState,
    treasury: TreasuryState,
    authority: Address,
    amount: u64,
) -> Result<(), TrendXBetError> {
    if user.authority != authority {
        Err(TrendXBetError::Unauthorized)
    } else if amount == 0 {
        Err(TrendXBetError::BetAmountTooLow)
    } else if user.balance + amount > u64::MAX || treasury.total_deposits + amount > u64::MAX {
        Err(TrendXBetError::MathematicalOverflow)
    } else {
        Ok(())
    }
}

/// Credits `amount` to the caller's balance and records it as a deposit.
/// On success the host moves `amount` from the caller's wallet into the
/// treasury; if that transfer fails, the new state is discarded.
pub fn deposit_funds(
    user_state: &mut UserState,
    treasury: &mut TreasuryState,
    authority: Address,
    amount: u64,
    current_time: i64,
) -> (r: Result<FundsDeposited, TrendXBetError>)
    ensures
        r is Ok <==> deposit_check(*old(user_state), *old(treasury), authority, amount) is Ok,
        r is Err ==> r->Err_0 == deposit_check(
            *old(user_state),
            *old(treasury),
            authority,
            amount,
        )->Err_0 && *final(user_state) == *old(user_state) && *final(treasury) == *old(treasury),
        // The ledger moves `amount` in: the user's balance and the treasury's
        // net balance both grow by exactly that much.
        r is Ok ==> final(user_state).balance == old(user_state).balance + amount,
        r is Ok ==> final(treasury).net() == old(treasury).net() + amount,
        r is Ok ==> *final(user_state) == (UserState {
            balance: (old(user_state).balance + amount) as u64,
            ..*old(user_state)
        }) && *final(treasury) == (TreasuryState {
            total_deposits: (old(treasury).total_deposits + amount) as u64,
            ..*old(treasury)
        }) && r->Ok_0 == (FundsDeposited {
            user: authority,
            amount,
            new_balance: final(user_state).balance,
            timestamp: current_time,
        }),
{
    if user_state.authority != authority {
        return Err(TrendXBetError::Unauthorized);
    }
    if amount == 0 {
        return Err(TrendXBetError::BetAmountTooLow);
    }
    if user_state.balance > u64::MAX - amount || treasury.total_deposits > u64::MAX - amount {
        return Err(TrendXBetError::MathematicalOverflow);
    }
    if let Err(e) = user_state.add_balance(amount) {
        return Err(e);
    }
    if let Err(e) = treasury.record_deposit(amount) {
        return Err(e);
    }
    Ok(
        FundsDeposited {
            user: authority,
            amount,
            new_balance: user_state.balance,
            timestamp: current_time,
        },
    )
}

/// The checks of a withdrawal, in the order they are made.
pub open spec fn withdraw_check(
    user: UserState,
    treasury: TreasuryState,
    authority: Address,
    amount: u64,
) -> Result<(), TrendXBetError> {
    if user.authority != authority {
        Err(TrendXBetError::Unauthorized)
    } else if amount == 0 {
        Err(TrendXBetError::BetAmountTooLow)
    } else if user.balance < amount {
        Err(TrendXBetError::InsufficientBalance)
    } else if treasury.available() < amount {
        Err(TrendXBetError::TreasuryInsufficientFunds)
    } else if treasury.total_withdrawals + amount > u64::MAX {
        Err(TrendXBetError::MathematicalOverflow)
    } else {
        Ok(())
    }
}

/// Debits `amount` from the caller's balance and records it as a
/// withdrawal. On success the host moves `amount` from the treasury to the
/// caller's wallet; if that transfer fails, the new state is discarded.
pub fn withdraw_funds(
    user_state: &mut UserState,
    treasury: &mut TreasuryState,
    authority: Address,
    amount: u64,
    current_time: i64,
) -> (r: Result<FundsWithdrawn, TrendXBetError>)
    ensures
        r is Ok <==> withdraw_check(*old(user_state), *old(treasury), authority, amount) is Ok,
        r is Err ==> r->Err_0 == withdraw_check(
            *old(user_state),
            *old(treasury),
            authority,
            amount,
        )->Err_0 && *final(user_state) == *old(user_state) && *final(treasury) == *old(treasury),
        // The ledger moves `amount` out: the user's balance and the treasury's
        // net balance both shrink by exactly that much.
        r is Ok ==> final(user_state).balance == old(user_state).balance - amount,
        r is Ok ==> final(treasury).net() == old(treasury).net() - amount,
        // Funds owed to winners stay covered.
        r is Ok ==> final(treasury).available() >= 0,
        r is Ok ==> *final(user_state) == (UserState {
            balance: (old(user_state).balance - amount) as u64,
            ..*old(user_state)
        }) && *final(treasury) == (TreasuryState {
            total_withdrawals: (old(treasury).total_withdrawals + amount) as u64,
            ..*old(treasury)
        }) && r->Ok_0 == (FundsWithdrawn {
            user: authority,
            amount,
            new_balance: final(user_state).balance,
            timestamp: current_time,
        }),
{
    if user_state.authority != authority {
        return Err(TrendXBetError::Unauthorized);
    }
    if amount == 0 {
        return Err(TrendXBetError::BetAmountTooLow);
    }
    if !user_state.has_sufficient_balance(amount) {
        return Err(TrendXBetError::InsufficientBalance);
    }
    if !treasury.has_sufficient_funds(amount) {
        return Err(TrendXBetError::TreasuryInsufficientFunds);
    }
    if treasury.total_withdrawals > u64::MAX - amount {
        return Err(TrendXBetError::MathematicalOverflow);
    }
    if let Err(e) = user_state.subtract_balance(amount) {
        return Err(e);
    }
    if let Err(e) = treasury.record_withdrawal(amount) {
        return Err(e);
    }
    Ok(
        FundsWithdrawn {
            user: authority,
            amount,
            new_balance: user_state.balance,
            timestamp: current_time,
        },
    )
}

} // verus!
