//! Parimutuel wagering ledger: custodial user balances, binary-outcome
//! matches with pooled stakes, multi-reporter result consensus and treasury
//! accounting, with the fixed-point odds and payout arithmetic that ties them
//! together.
//!
//! Every state transition is a function over plain values. A transition that
//! fails leaves every entity it was handed exactly as it was.
pub mod address;
pub mod constants;
pub mod error;
pub mod events;
pub mod instructions;
pub mod ledger;
pub mod state;
pub mod utils;

pub use address::Address;
pub use error::TrendXBetError;
pub use state::{
    BetState, BetStatus, GlobalState, MatchState, MatchStatus, OracleState, TreasuryState, UserState,
};
pub use utils::{MathUtils, TimeUtils, ValidationUtils};
