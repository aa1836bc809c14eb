//! Reputation and content scoring for a social ledger, with a rate-limited
//! token faucet beside it.

pub mod smoothing;
pub mod table;
pub mod types;
pub mod model;
pub mod scores;
pub mod laws;
pub mod faucets;

