use vstd::prelude::*;
use crate::address::Address;
use crate::state::MatchStatus;

verus! {

/// The platform was set up.
#[derive(Clone, Copy, Debug, PartialEq, Eq, Structural)]
pub struct PlatformInitialized {
    pub admin: Address,
    pub house_edge: u16,
    pub min_bet_amount: u64,
    pub max_bet_amount: u64,
    pub timestamp: i64,
}

/// A user registered a profile.
#[derive(Clone, Debug)]
pub struct UserProfileCreated {
    pub user: Address,
    pub username: String,
    pub timestamp: i64,
}

/// A user changed their profile.
#[derive(Clone, Debug)]
pub struct UserProfileUpdated {
    pub user: Address,
    pub new_username: Option<String>,
    pub timestamp: i64,
}

/// Funds came into a user's custodial balance.
#[derive(Clone, Copy, Debug, PartialEq, Eq, Structural)]
pub struct FundsDeposited {
    pub user: Address,
    pub amount: u64,
    pub new_balance: u64,
    pub timestamp: i64,
}

/// Funds left a user's custodial balance.
#[derive(Clone, Copy, Debug, PartialEq, Eq, Structural)]
pub struct FundsWithdrawn {
    pub user: Address,
    pub amount: u64,
    pub new_balance: u64,
    pub timestamp: i64,
}

/// A match was scheduled.
#[derive(Clone, Debug)]
pub struct MatchCreated {
    pub match_id: Address,
    pub team1: String,
    pub team2: String,
    pub start_time: i64,
    pub end_time: i64,
    pub description: String,
    pub creator: Address,
    pub timestamp: i64,
}

/// A match moved to another status.
#[derive(Clone, Copy, Debug, PartialEq, Eq, Structural)]
pub struct MatchStatusUpdated {
    pub match_id: Address,
    pub old_status: MatchStatus,
    pub new_status: MatchStatus,
    pub timestamp: i64,
}

/// Betting on a match was closed.
#[derive(Clone, Copy, Debug, PartialEq, Eq, Structural)]
pub struct MatchBettingClosed {
    pub match_id: Address,
    pub total_pool: u64,
    pub team1_pool: u64,
    pub team2_pool: u64,
    pub total_bets: u64,
    pub timestamp: i64,
}

/// A wager was placed.
#[derive(Clone, Copy, Debug, PartialEq, Eq, Structural)]
pub struct BetPlaced {
    pub bettor: Address,
    pub match_id: Address,
    pub amount: u64,
    pub predicted_team: u8,
    pub odds_at_time: u64,
    pub potential_payout: u64,
    pub timestamp: i64,
}

/// A wager was cancelled and refunded.
#[derive(Clone, Copy, Debug, PartialEq, Eq, Structural)]
pub struct BetCancelled {
    pub bettor: Address,
    pub match_id: Address,
    pub amount: u64,
    pub refund_amount: u64,
    pub timestamp: i64,
}

/// A wager was settled against the match result.
#[derive(Clone, Copy, Debug, PartialEq, Eq, Structural)]
pub struct BetSettled {
    pub bettor: Address,
    pub match_id: Address,
    pub amount: u64,
    pub won: bool,
    pub payout_amount: u64,
    pub timestamp: i64,
}

/// A payout reached the bettor's balance.
#[derive(Clone, Copy, Debug, PartialEq, Eq, Structural)]
pub struct WinningsClaimed {
    pub bettor: Address,
    pub match_id: Address,
    pub payout_amount: u64,
    pub timestamp: i64,
}

/// A reporter was registered for a match.
#[derive(Clone, Copy, Debug, PartialEq, Eq, Structural)]
pub struct OracleRegistered {
    pub oracle_authority: Address,
    pub match_id: Address,
    pub timestamp: i64,
}

/// A reporter submitted or corrected a result.
#[derive(Clone, Debug)]
pub struct MatchResultUpdated {
    pub match_id: Address,
    pub oracle_authority: Address,
    pub winning_team: u8,
    pub final_score: String,
    pub timestamp: i64,
}

/// A report was validated.
#[derive(Clone, Copy, Debug, PartialEq, Eq, Structural)]
pub struct OracleUpdateValidated {
    pub match_id: Address,
    pub oracle_authority: Address,
    pub confirmations: u8,
    pub is_final: bool,
    pub timestamp: i64,
}

/// A validated result reached the required confirmations.
#[derive(Clone, Copy, Debug, PartialEq, Eq, Structural)]
pub struct ConsensusReached {
    pub match_id: Address,
    pub winning_team: u8,
    pub total_confirmations: u8,
    pub timestamp: i64,
}

/// The administrator changed the configuration; each old value is given where a new one was supplied.
#[derive(Clone, Copy, Debug, PartialEq, Eq, Structural)]
pub struct PlatformConfigUpdated {
    pub admin: Address,
    pub old_house_edge: Option<u16>,
    pub new_house_edge: Option<u16>,
    pub old_min_bet: Option<u64>,
    pub new_min_bet: Option<u64>,
    pub old_max_bet: Option<u64>,
    pub new_max_bet: Option<u64>,
    pub timestamp: i64,
}

/// Collected fees left the treasury.
#[derive(Clone, Copy, Debug, PartialEq, Eq, Structural)]
pub struct PlatformFeesWithdrawn {
    pub admin: Address,
    pub amount: u64,
    pub remaining_fees: u64,
    pub timestamp: i64,
}

/// The platform was paused.
#[derive(Clone, Copy, Debug, PartialEq, Eq, Structural)]
pub struct PlatformPaused {
    pub admin: Address,
    pub timestamp: i64,
}

/// The platform was resumed.
#[derive(Clone, Copy, Debug, PartialEq, Eq, Structural)]
pub struct PlatformUnpaused {
    pub admin: Address,
    pub timestamp: i64,
}

/// The administrator withdrew treasury funds in an emergency.
#[derive(Clone, Copy, Debug, PartialEq, Eq, Structural)]
pub struct EmergencyWithdrawal {
    pub admin: Address,
    pub amount: u64,
    pub timestamp: i64,
}

} // verus!
