//! The operations of the ledger. Each one takes the entities it touches and
//! the identity of its caller, checks everything first, and then applies all
//! of its effects, or none of them, returning the event that records it.
//! Moving currency through the ledger, and knowing the time, belong to the
//! host.
pub mod admin_instructions;
pub mod bet_instructions;
pub mod initialize;
pub mod match_instructions;
pub mod oracle_instructions;
pub mod user_instructions;
