use vstd::prelude::*;

verus! {

// Platform configuration
pub const MAX_USERNAME_LENGTH: usize = 32;

pub const MAX_TEAM_NAME_LENGTH: usize = 64;

pub const MAX_DESCRIPTION_LENGTH: usize = 256;

pub const MAX_SCORE_LENGTH: usize = 32;

// Betting configuration
/// Default house edge: 5% in basis points.
pub const DEFAULT_HOUSE_EDGE: u16 = 500;

/// Default smallest stake.
pub const MIN_BET_AMOUNT: u64 = 1_000_000;

/// Default largest stake.
pub const MAX_BET_AMOUNT: u64 = 100_000_000_000;

/// 100% in basis points.
pub const BASIS_POINTS: u64 = 10_000;

/// Largest house edge a configuration may carry: 50% in basis points.
pub const MAX_HOUSE_EDGE: u16 = 5000;

/// Odds quoted for a side that holds no stake while the other side does.
pub const NO_LIQUIDITY_ODDS: u64 = 1_000_000;

// Oracle configuration
/// Confirmations a report needs before it may be validated.
pub const MIN_ORACLE_CONFIRMATIONS: u8 = 2;

/// Seconds after a match's end during which results may be reported.
pub const ORACLE_UPDATE_WINDOW: i64 = 3600;

/// Largest tolerated deviation between reports, in basis points.
pub const MAX_ORACLE_DEVIATION: u64 = 1000;

// Time configuration
/// Shortest allowed match duration in seconds (one hour).
pub const MIN_BETTING_DURATION: i64 = 3600;

/// Longest allowed match duration in seconds (thirty days).
pub const MAX_BETTING_DURATION: i64 = 2_592_000;

/// Seconds after a match's end before the settlement period is reached.
pub const SETTLEMENT_WINDOW: i64 = 86_400;

/// Seconds in a day.
pub const SECONDS_PER_DAY: i64 = 86_400;

} // verus!
