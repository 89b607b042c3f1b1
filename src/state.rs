//! The entities of the ledger and their single-entity transitions.
pub mod bet_state;
pub mod global_state;
pub mod match_state;
pub mod oracle_state;
pub mod treasury_state;
pub mod user_state;

pub use bet_state::{BetState, BetStatus};
pub use global_state::GlobalState;
pub use match_state::{MatchState, MatchStatus};
pub use oracle_state::OracleState;
pub use treasury_state::TreasuryState;
pub use user_state::UserState;
