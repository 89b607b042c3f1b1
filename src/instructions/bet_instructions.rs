use vstd::prelude::*;
use crate::address::Address;
use crate::error::TrendXBetError;
use crate::events::{BetCancelled, BetPlaced, BetSettled, WinningsClaimed};
use crate::state::{BetState, BetStatus, GlobalState, MatchState, TreasuryState, UserState};
use crate::utils::{bet_amount_check, bps_of, parimutuel_of, payout_of, team_check, MathUtils, ValidationUtils};

verus! {

/// The checks of a placement, in the order they are made. On success: the
/// odds quoted, the payout quoted, and the platform fee.
pub open spec fn place_bet_check(
    user: UserState,
    m: MatchState,
    global: GlobalState,
    treasury: TreasuryState,
    authority: Address,
    amount: u64,
    predicted_team: u8,
    odds_accepted: u64,
    current_time: i64,
) -> Result<(u64, u64, u64), TrendXBetError> {
    let odds = m.odds_spec(predicted_team);
    if user.authority != authority {
        Err(TrendXBetError::Unauthorized)
    } else if global.is_paused {
        Err(TrendXBetError::PlatformPaused)
    } else if bet_amount_check(amount, global.min_bet_amount, global.max_bet_amount) is Err {
        Err(bet_amount_check(amount, global.min_bet_amount, global.max_bet_amount)->Err_0)
    } else if team_check(predicted_team) is Err {
        Err(TrendXBetError::InvalidTeam)
    } else if !m.betting_allowed(current_time) {
        Err(TrendXBetError::BettingClosed)
    } else if user.balance < amount {
        Err(TrendXBetError::InsufficientBalance)
    } else if odds is Err {
        Err(TrendXBetError::MathematicalOverflow)
    } else if odds->Ok_0 < odds_accepted {
        Err(TrendXBetError::OracleDeviationTooHigh)
    } else if payout_of(amount, odds->Ok_0, global.house_edge) is None || bps_of(
        amount,
        global.house_edge as u64,
    ) is None {
        Err(TrendXBetError::MathematicalOverflow)
    } else if user.total_bets_placed + 1 > u64::MAX || user.total_volume + amount > u64::MAX
        || !m.can_add_bet(amount, predicted_team) || treasury.platform_fees + bps_of(
        amount,
        global.house_edge as u64,
    )->0 > u64::MAX {
        Err(TrendXBetError::MathematicalOverflow)
    } else {
        Ok(
            (
                odds->Ok_0,
                payout_of(amount, odds->Ok_0, global.house_edge)->0,
                bps_of(amount, global.house_edge as u64)->0,
            ),
        )
    }
}

/// The user after staking `amount`.
pub open spec fn user_after_bet(user: UserState, amount: u64) -> UserState {
    UserState {
        balance: (user.balance - amount) as u64,
        total_bets_placed: (user.total_bets_placed + 1) as u64,
        total_volume: (user.total_volume + amount) as u64,
        ..user
    }
}

/// Places a wager of `amount` on `predicted_team`, accepting any odds at
/// least `odds_accepted`. Debits the user, adds the stake to the match's
/// pools and the fee to the treasury, and returns the new wager.
pub fn place_bet(
    user_state: &mut UserState,
    match_state: &mut MatchState,
    global_state: &GlobalState,
    treasury: &mut TreasuryState,
    authority: Address,
    amount: u64,
    predicted_team: u8,
    odds_accepted: u64,
    current_time: i64,
) -> (r: Result<(BetState, BetPlaced), TrendXBetError>)
    ensures
        r is Ok <==> place_bet_check(
            *old(user_state),
            *old(match_state),
            *global_state,
            *old(treasury),
            authority,
            amount,
            predicted_team,
            odds_accepted,
            current_time,
        ) is Ok,
        r is Err ==> r->Err_0 == place_bet_check(
            *old(user_state),
            *old(match_state),
            *global_state,
            *old(treasury),
            authority,
            amount,
            predicted_team,
            odds_accepted,
            current_time,
        )->Err_0 && *final(user_state) == *old(user_state) && *final(match_state) == *old(match_state) && *final(treasury) == *old(treasury),
        // No currency moves: the stake leaves the user's balance for the
        // match's pools, and the treasury's net balance stays as it was.
        r is Ok ==> final(user_state).balance == old(user_state).balance - amount,
        r is Ok ==> final(match_state).total_pool == old(match_state).total_pool + amount,
        r is Ok ==> final(treasury).net() == old(treasury).net(),
        r is Ok ==> {
            let (odds, payout, fee) = place_bet_check(
                *old(user_state),
                *old(match_state),
                *global_state,
                *old(treasury),
                authority,
                amount,
                predicted_team,
                odds_accepted,
                current_time,
            )->Ok_0;
            &&& *final(user_state) == user_after_bet(*old(user_state), amount)
            &&& *final(match_state) == old(match_state).with_bet(amount, predicted_team)
            &&& *final(treasury) == (TreasuryState {
                platform_fees: (old(treasury).platform_fees + fee) as u64,
                ..*old(treasury)
            })
            &&& r->Ok_0.0 == (BetState {
                bettor: authority,
                match_id: old(match_state).match_id,
                amount,
                predicted_team,
                odds_at_time: odds,
                potential_payout: payout,
                status: BetStatus::Active,
                bet_placed_at: current_time,
                settled_at: None,
                payout_amount: None,
            })
            &&& r->Ok_0.1 == (BetPlaced {
                bettor: authority,
                match_id: old(match_state).match_id,
                amount,
                predicted_team,
                odds_at_time: odds,
                potential_payout: payout,
                timestamp: current_time,
            })
        },
{
    if user_state.authority != authority {
        return Err(TrendXBetError::Unauthorized);
    }
    if !global_state.is_operational() {
        return Err(TrendXBetError::PlatformPaused);
    }
    if let Err(e) = ValidationUtils::validate_bet_amount(
        amount,
        global_state.min_bet_amount,
        global_state.max_bet_amount,
    ) {
        return Err(e);
    }
    if let Err(e) = ValidationUtils::validate_team_selection(predicted_team) {
        return Err(e);
    }
    if !match_state.is_betting_allowed(current_time) {
        return Err(TrendXBetError::BettingClosed);
    }
    if !user_state.has_sufficient_balance(amount) {
        return Err(TrendXBetError::InsufficientBalance);
    }
    let current_odds = match match_state.get_team_odds(predicted_team) {
        Ok(o) => o,
        Err(e) => return Err(e),
    };
    if current_odds < odds_accepted {
        return Err(TrendXBetError::OracleDeviationTooHigh);
    }
    let potential_payout = match MathUtils::calculate_payout(
        amount,
        current_odds,
        global_state.house_edge,
    ) {
        Ok(p) => p,
        Err(e) => return Err(e),
    };
    let platform_fee = match MathUtils::calculate_platform_fee(amount, global_state.house_edge) {
        Ok(f) => f,
        Err(e) => return Err(e),
    };
    let team_pool = if predicted_team == 0 {
        match_state.team1_pool
    } else {
        match_state.team2_pool
    };
    if user_state.total_bets_placed == u64::MAX || user_state.total_volume > u64::MAX - amount
        || match_state.total_pool > u64::MAX - amount || team_pool > u64::MAX - amount
        || match_state.total_bets == u64::MAX || treasury.platform_fees > u64::MAX - platform_fee {
        return Err(TrendXBetError::MathematicalOverflow);
    }
    // Every check has passed: the effects below cannot fail.

    if let Err(e) = user_state.subtract_balance(amount) {
        return Err(e);
    }
    if let Err(e) = user_state.record_bet_placed(amount) {
        return Err(e);
    }
    if let Err(e) = match_state.add_bet(amount, predicted_team) {
        return Err(e);
    }
    if let Err(e) = treasury.add_platform_fees(platform_fee) {
        return Err(e);
    }
    let bet = BetState::initialize(
        authority,
        match_state.match_id,
        amount,
        predicted_team,
        current_odds,
        potential_payout,
        current_time,
    );
    let event = BetPlaced {
        bettor: authority,
        match_id: match_state.match_id,
        amount,
        predicted_team,
        odds_at_time: current_odds,
        potential_payout,
        timestamp: current_time,
    };
    Ok((bet, event))
}

/// The checks of a cancellation, in the order they are made.
pub open spec fn cancel_bet_check(
    bet: BetState,
    user: UserState,
    m: MatchState,
    authority: Address,
    current_time: i64,
) -> Result<(), TrendXBetError> {
    if bet.bettor != authority {
        Err(TrendXBetError::Unauthorized)
    } else if user.authority != bet.bettor || m.match_id != bet.match_id {
        Err(TrendXBetError::InvalidAccount)
    } else if !(bet.status == BetStatus::Active && current_time < m.start_time) {
        Err(TrendXBetError::CannotCancelBet)
    } else if user.balance + bet.amount > u64::MAX || !m.can_remove_bet(
        bet.amount,
        bet.predicted_team,
    ) {
        Err(TrendXBetError::MathematicalOverflow)
    } else {
        Ok(())
    }
}

/// Cancels an active wager before its match starts. The stake is refunded to
/// the user's balance at once and leaves the match's pools; since the refund
/// is already paid, the wager is closed as claimed and cannot be claimed
/// again.
pub fn cancel_bet(
    bet_state: &mut BetState,
    user_state: &mut UserState,
    match_state: &mut MatchState,
    authority: Address,
    current_time: i64,
) -> (r: Result<BetCancelled, TrendXBetError>)
    ensures
        r is Ok <==> cancel_bet_check(
            *old(bet_state),
            *old(user_state),
            *old(match_state),
            authority,
            current_time,
        ) is Ok,
        r is Err ==> r->Err_0 == cancel_bet_check(
            *old(bet_state),
            *old(user_state),
            *old(match_state),
            authority,
            current_time,
        )->Err_0 && *final(bet_state) == *old(bet_state) && *final(user_state) == *old(user_state)
            && *final(match_state) == *old(match_state),
        // Once the match has started, the owner's own wager cannot be
        // cancelled, whatever the statuses.
        old(bet_state).bettor == authority && old(user_state).authority == authority && old(
            match_state,
        ).match_id == old(bet_state).match_id && current_time >= old(match_state).start_time ==> r
            == Err::<BetCancelled, _>(TrendXBetError::CannotCancelBet) && *final(bet_state) == *old(
            bet_state,
        ) && *final(user_state) == *old(user_state) && *final(match_state) == *old(match_state),
        // No currency moves: the stake leaves the match's pools for the
        // user's balance.
        r is Ok ==> final(user_state).balance == old(user_state).balance + old(bet_state).amount
            && final(match_state).total_pool == old(match_state).total_pool - old(bet_state).amount,
        r is Ok ==> {
            &&& *final(bet_state) == (BetState {
                status: BetStatus::Claimed,
                settled_at: Some(current_time),
                payout_amount: Some(old(bet_state).amount),
                ..*old(bet_state)
            })
            &&& *final(user_state) == (UserState {
                balance: (old(user_state).balance + old(bet_state).amount) as u64,
                ..*old(user_state)
            })
            &&& *final(match_state) == old(match_state).without_bet(
                old(bet_state).amount,
                old(bet_state).predicted_team,
            )
            &&& r->Ok_0 == (BetCancelled {
                bettor: old(bet_state).bettor,
                match_id: old(bet_state).match_id,
                amount: old(bet_state).amount,
                refund_amount: old(bet_state).amount,
                timestamp: current_time,
            })
        },
{
    if bet_state.bettor != authority {
        return Err(TrendXBetError::Unauthorized);
    }
    if user_state.authority != bet_state.bettor || match_state.match_id != bet_state.match_id {
        return Err(TrendXBetError::InvalidAccount);
    }
    if !bet_state.can_be_cancelled(match_state.start_time, current_time) {
        return Err(TrendXBetError::CannotCancelBet);
    }
    let amount = bet_state.amount;
    let predicted_team = bet_state.predicted_team;
    let team_pool = if predicted_team == 0 {
        match_state.team1_pool
    } else {
        match_state.team2_pool
    };
    if user_state.balance > u64::MAX - amount || match_state.total_pool < amount || team_pool
        < amount || match_state.total_bets == 0 {
        return Err(TrendXBetError::MathematicalOverflow);
    }
    // Every check has passed: the effects below cannot fail.

    bet_state.cancel(current_time);
    if let Err(e) = user_state.add_balance(amount) {
        return Err(e);
    }
    if let Err(e) = match_state.remove_bet(amount, predicted_team) {
        return Err(e);
    }
    if let Err(e) = bet_state.claim_payout() {
        return Err(e);
    }
    Ok(
        BetCancelled {
            bettor: bet_state.bettor,
            match_id: bet_state.match_id,
            amount,
            refund_amount: amount,
            timestamp: current_time,
        },
    )
}

/// The checks of a settlement, in the order they are made. On success: the
/// payout, which is zero for a lost wager.
pub open spec fn settle_bet_check(
    bet: BetState,
    user: UserState,
    m: MatchState,
    global: GlobalState,
    treasury: TreasuryState,
) -> Result<u64, TrendXBetError> {
    if !m.is_settled {
        Err(TrendXBetError::MatchNotStarted)
    } else if user.authority != bet.bettor || m.match_id != bet.match_id {
        Err(TrendXBetError::InvalidAccount)
    } else if bet.status != BetStatus::Active {
        Err(TrendXBetError::BetNotFound)
    } else if m.winning_team is None {
        Err(TrendXBetError::MatchNotStarted)
    } else if bet.predicted_team != m.winning_team->0 {
        Ok(0)
    } else {
        let payout = parimutuel_of(
            bet.amount,
            m.pool_of(m.winning_team->0),
            m.total_pool,
            global.house_edge,
        );
        if payout is Err {
            payout
        } else if user.total_bets_won + 1 > u64::MAX || user.total_winnings + payout->Ok_0
            > u64::MAX || treasury.pending_payouts + payout->Ok_0 > u64::MAX {
            Err(TrendXBetError::MathematicalOverflow)
        } else {
            payout
        }
    }
}

/// Settles an active wager against the recorded result of its settled match.
/// A winning wager is paid its parimutuel share of the pool, which is counted
/// in the user's winnings and in the treasury's pending payouts until
/// claimed; a losing one pays nothing.
pub fn settle_bet(
    bet_state: &mut BetState,
    user_state: &mut UserState,
    match_state: &MatchState,
    global_state: &GlobalState,
    treasury: &mut TreasuryState,
    current_time: i64,
) -> (r: Result<BetSettled, TrendXBetError>)
    ensures
        r is Ok <==> settle_bet_check(
            *old(bet_state),
            *old(user_state),
            *match_state,
            *global_state,
            *old(treasury),
        ) is Ok,
        r is Err ==> r->Err_0 == settle_bet_check(
            *old(bet_state),
            *old(user_state),
            *match_state,
            *global_state,
            *old(treasury),
        )->Err_0 && *final(bet_state) == *old(bet_state) && *final(user_state) == *old(user_state)
            && *final(treasury) == *old(treasury),
        // No currency moves, and no balance changes.
        r is Ok ==> final(user_state).balance == old(user_state).balance && final(treasury).net()
            == old(treasury).net(),
        r is Ok ==> {
            let won = old(bet_state).predicted_team == match_state.winning_team->0;
            let payout = settle_bet_check(
                *old(bet_state),
                *old(user_state),
                *match_state,
                *global_state,
                *old(treasury),
            )->Ok_0;
            &&& won ==> *final(bet_state) == (BetState {
                status: BetStatus::Won,
                settled_at: Some(current_time),
                payout_amount: Some(payout),
                ..*old(bet_state)
            })
            &&& won ==> *final(user_state) == (UserState {
                total_bets_won: (old(user_state).total_bets_won + 1) as u64,
                total_winnings: (old(user_state).total_winnings + payout) as u64,
                ..*old(user_state)
            })
            &&& won ==> *final(treasury) == (TreasuryState {
                pending_payouts: (old(treasury).pending_payouts + payout) as u64,
                ..*old(treasury)
            })
            &&& !won ==> *final(bet_state) == (BetState {
                status: BetStatus::Lost,
                settled_at: Some(current_time),
                payout_amount: Some(0),
                ..*old(bet_state)
            })
            &&& !won ==> *final(user_state) == *old(user_state) && *final(treasury) == *old(treasury) && payout == 0
            &&& r->Ok_0 == (BetSettled {
                bettor: old(bet_state).bettor,
                match_id: old(bet_state).match_id,
                amount: old(bet_state).amount,
                won,
                payout_amount: payout,
                timestamp: current_time,
            })
        },
{
    if !match_state.is_settled {
        return Err(TrendXBetError::MatchNotStarted);
    }
    if user_state.authority != bet_state.bettor || match_state.match_id != bet_state.match_id {
        return Err(TrendXBetError::InvalidAccount);
    }
    if bet_state.status != BetStatus::Active {
        return Err(TrendXBetError::BetNotFound);
    }
    let winning_team = match match_state.winning_team {
        Some(t) => t,
        None => return Err(TrendXBetError::MatchNotStarted),
    };
    let winning_pool = match match_state.get_winning_pool() {
        Some(p) => p,
        None => return Err(TrendXBetError::PayoutCalculationFailed),
    };
    let won = bet_state.is_winning_bet(winning_team);
    if won {
        let payout = match bet_state.calculate_parimutuel_payout(
            winning_pool,
            match_state.total_pool,
            global_state.house_edge,
        ) {
            Ok(p) => p,
            Err(e) => return Err(e),
        };
        if user_state.total_bets_won == u64::MAX || user_state.total_winnings > u64::MAX - payout
            || treasury.pending_payouts > u64::MAX - payout {
            return Err(TrendXBetError::MathematicalOverflow);
        }
        // Every check has passed: the effects below cannot fail.

        bet_state.settle_as_won(payout, current_time);
        if let Err(e) = user_state.record_bet_won(payout) {
            return Err(e);
        }
        if let Err(e) = treasury.add_pending_payout(payout) {
            return Err(e);
        }
    } else {
        bet_state.settle_as_lost(current_time);
    }
    let payout_amount = match bet_state.payout_amount {
        Some(p) => p,
        None => 0,
    };
    Ok(
        BetSettled {
            bettor: bet_state.bettor,
            match_id: bet_state.match_id,
            amount: bet_state.amount,
            won,
            payout_amount,
            timestamp: current_time,
        },
    )
}

/// The checks of a claim, in the order they are made. On success: the amount
/// paid.
pub open spec fn claim_check(
    bet: BetState,
    user: UserState,
    treasury: TreasuryState,
    authority: Address,
) -> Result<u64, TrendXBetError> {
    if bet.bettor != authority {
        Err(TrendXBetError::Unauthorized)
    } else if user.authority != bet.bettor {
        Err(TrendXBetError::InvalidAccount)
    } else if bet.claimable() == 0 {
        Err(TrendXBetError::BetNotFound)
    } else if user.balance + bet.claimable() > u64::MAX || treasury.pending_payouts
        < bet.claimable() {
        Err(TrendXBetError::MathematicalOverflow)
    } else {
        Ok(bet.claimable())
    }
}

/// Pays a won wager's payout into the user's balance, takes it off the
/// treasury's pending payouts, and closes the wager as claimed.
pub fn claim_winnings(
    bet_state: &mut BetState,
    user_state: &mut UserState,
    treasury: &mut TreasuryState,
    authority: Address,
    current_time: i64,
) -> (r: Result<WinningsClaimed, TrendXBetError>)
    ensures
        r is Ok <==> claim_check(*old(bet_state), *old(user_state), *old(treasury), authority) is Ok,
        r is Err ==> r->Err_0 == claim_check(
            *old(bet_state),
            *old(user_state),
            *old(treasury),
            authority,
        )->Err_0 && *final(bet_state) == *old(bet_state) && *final(user_state) == *old(user_state)
            && *final(treasury) == *old(treasury),
        // No currency moves: the payout leaves the treasury's pending payouts
        // for the user's balance, exactly once.
        r is Ok ==> final(user_state).balance == old(user_state).balance + old(
            bet_state,
        ).claimable(),
        r is Ok ==> final(treasury).pending_payouts == old(treasury).pending_payouts - old(
            bet_state,
        ).claimable(),
        r is Ok ==> final(treasury).net() == old(treasury).net(),
        r is Ok ==> {
            let payout = old(bet_state).claimable();
            &&& *final(bet_state) == (BetState { status: BetStatus::Claimed, ..*old(bet_state) })
            &&& *final(user_state) == (UserState {
                balance: (old(user_state).balance + payout) as u64,
                ..*old(user_state)
            })
            &&& *final(treasury) == (TreasuryState {
                pending_payouts: (old(treasury).pending_payouts - payout) as u64,
                ..*old(treasury)
            })
            &&& r->Ok_0 == (WinningsClaimed {
                bettor: old(bet_state).bettor,
                match_id: old(bet_state).match_id,
                payout_amount: payout,
                timestamp: current_time,
            })
        },
{
    if bet_state.bettor != authority {
        return Err(TrendXBetError::Unauthorized);
    }
    if user_state.authority != bet_state.bettor {
        return Err(TrendXBetError::InvalidAccount);
    }
    if !bet_state.has_claimable_winnings() {
        return Err(TrendXBetError::BetNotFound);
    }
    let payout_amount = bet_state.get_claimable_amount();
    if user_state.balance > u64::MAX - payout_amount || treasury.pending_payouts < payout_amount {
        return Err(TrendXBetError::MathematicalOverflow);
    }
    // Every check has passed: the effects below cannot fail.

    if let Err(e) = bet_state.claim_payout() {
        return Err(e);
    }
    if let Err(e) = user_state.add_balance(payout_amount) {
        return Err(e);
    }
    if let Err(e) = treasury.remove_pending_payout(payout_amount) {
        return Err(e);
    }
    Ok(
        WinningsClaimed {
            bettor: bet_state.bettor,
            match_id: bet_state.match_id,
            payout_amount,
            timestamp: current_time,
        },
    )
}

/// A claim succeeds at most once: whatever a successful claim leaves behind,
/// claiming the same wager again fails with `BetNotFound`, and a failed claim
/// changes nothing.
pub proof fn lemma_claim_at_most_once(
    bet: BetState,
    user: UserState,
    treasury: TreasuryState,
    authority: Address,
    user_after: UserState,
    treasury_after: TreasuryState,
)
    requires
        claim_check(bet, user, treasury, authority) is Ok,
        user_after.authority == user.authority,
    ensures
        claim_check(
            BetState { status: BetStatus::Claimed, ..bet },
            user_after,
            treasury_after,
            authority,
        ) == Err::<u64, _>(TrendXBetError::BetNotFound),
{
}

/// Once the match has started, no wager on it can be cancelled, whatever the
/// status of the match or of the wager.
pub proof fn lemma_no_cancel_after_start(
    bet: BetState,
    user: UserState,
    m: MatchState,
    authority: Address,
    current_time: i64,
)
    requires
        current_time >= m.start_time,
    ensures
        cancel_bet_check(bet, user, m, authority, current_time) is Err,
{
}

} // verus!
