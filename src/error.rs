use vstd::prelude::*;

verus! {

/// Every way an operation of the ledger can fail. A failed operation changes
/// nothing.
#[derive(Clone, Copy, Debug, PartialEq, Eq, Structural)]
pub enum TrendXBetError {
    /// Platform is currently paused.
    PlatformPaused,
    /// Unauthorized access.
    Unauthorized,
    /// Invalid bet amount - below minimum.
    BetAmountTooLow,
    /// Invalid bet amount - above maximum.
    BetAmountTooHigh,
    /// Insufficient user balance.
    InsufficientBalance,
    /// Invalid team selection.
    InvalidTeam,
    /// Betting is closed for this match.
    BettingClosed,
    /// Match has not started yet.
    MatchNotStarted,
    /// Match has already ended.
    MatchEnded,
    /// Match has already been settled.
    MatchAlreadySettled,
    /// Invalid match status.
    InvalidMatchStatus,
    /// Bet not found or already settled.
    BetNotFound,
    /// Cannot cancel bet - match has started.
    CannotCancelBet,
    /// Oracle update window expired.
    OracleUpdateExpired,
    /// Insufficient oracle confirmations.
    InsufficientOracleConfirmations,
    /// Oracle deviation too high.
    OracleDeviationTooHigh,
    /// Invalid oracle authority.
    InvalidOracleAuthority,
    /// Oracle result already submitted.
    OracleResultExists,
    /// Username too long.
    UsernameTooLong,
    /// Team name too long.
    TeamNameTooLong,
    /// Description too long.
    DescriptionTooLong,
    /// Invalid time configuration.
    InvalidTimeConfiguration,
    /// Start time must be in the future.
    StartTimeInPast,
    /// End time must be after start time.
    EndTimeBeforeStart,
    /// Treasury insufficient funds.
    TreasuryInsufficientFunds,
    /// Withdrawal amount exceeds daily limit.
    WithdrawalLimitExceeded,
    /// Invalid house edge - must be between 0 and 50%.
    InvalidHouseEdge,
    /// Mathematical overflow.
    MathematicalOverflow,
    /// Division by zero.
    DivisionByZero,
    /// Invalid account provided.
    InvalidAccount,
    /// Account not initialized.
    AccountNotInitialized,
    /// Already initialized.
    AlreadyInitialized,
    /// Invalid program address.
    InvalidProgramAddress,
    /// Token transfer failed.
    TokenTransferFailed,
    /// Invalid timestamp.
    InvalidTimestamp,
    /// User profile not found.
    UserProfileNotFound,
    /// Match not found.
    MatchNotFound,
    /// Payout calculation failed.
    PayoutCalculationFailed,
    /// Settlement period not yet reached.
    SettlementPeriodNotReached,
    /// Emergency withdrawal not authorized.
    EmergencyWithdrawalNotAuthorized,
}

impl TrendXBetError {
    /// Human-readable description of the failure.
    pub fn message(&self) -> &'static str {
        match self {
            TrendXBetError::PlatformPaused => "Platform is currently paused",
            TrendXBetError::Unauthorized => "Unauthorized access",
            TrendXBetError::BetAmountTooLow => "Invalid bet amount - below minimum",
            TrendXBetError::BetAmountTooHigh => "Invalid bet amount - above maximum",
            TrendXBetError::InsufficientBalance => "Insufficient user balance",
            TrendXBetError::InvalidTeam => "Invalid team selection",
            TrendXBetError::BettingClosed => "Betting is closed for this match",
            TrendXBetError::MatchNotStarted => "Match has not started yet",
            TrendXBetError::MatchEnded => "Match has already ended",
            TrendXBetError::MatchAlreadySettled => "Match has already been settled",
            TrendXBetError::InvalidMatchStatus => "Invalid match status",
            TrendXBetError::BetNotFound => "Bet not found or already settled",
            TrendXBetError::CannotCancelBet => "Cannot cancel bet - match has started",
            TrendXBetError::OracleUpdateExpired => "Oracle update window expired",
            TrendXBetError::InsufficientOracleConfirmations => "Insufficient oracle confirmations",
            TrendXBetError::OracleDeviationTooHigh => "Oracle deviation too high",
            TrendXBetError::InvalidOracleAuthority => "Invalid oracle authority",
            TrendXBetError::OracleResultExists => "Oracle result already submitted",
            TrendXBetError::UsernameTooLong => "Username too long",
            TrendXBetError::TeamNameTooLong => "Team name too long",
            TrendXBetError::DescriptionTooLong => "Description too long",
            TrendXBetError::InvalidTimeConfiguration => "Invalid time configuration",
            TrendXBetError::StartTimeInPast => "Start time must be in the future",
            TrendXBetError::EndTimeBeforeStart => "End time must be after start time",
            TrendXBetError::TreasuryInsufficientFunds => "Treasury insufficient funds",
            TrendXBetError::WithdrawalLimitExceeded => "Withdrawal amount exceeds daily limit",
            TrendXBetError::InvalidHouseEdge => "Invalid house edge - must be between 0 and 50%",
            TrendXBetError::MathematicalOverflow => "Mathematical overflow",
            TrendXBetError::DivisionByZero => "Division by zero",
            TrendXBetError::InvalidAccount => "Invalid account provided",
            TrendXBetError::AccountNotInitialized => "Account not initialized",
            TrendXBetError::AlreadyInitialized => "Already initialized",
            TrendXBetError::InvalidProgramAddress => "Invalid program address",
            TrendXBetError::TokenTransferFailed => "Token transfer failed",
            TrendXBetError::InvalidTimestamp => "Invalid timestamp",
            TrendXBetError::UserProfileNotFound => "User profile not found",
            TrendXBetError::MatchNotFound => "Match not found",
            TrendXBetError::PayoutCalculationFailed => "Payout calculation failed",
            TrendXBetError::SettlementPeriodNotReached => "Settlement period not yet reached",
            TrendXBetError::EmergencyWithdrawalNotAuthorized => "Emergency withdrawal not authorized",
        }
    }
}

} // verus!
