//! A ledger engine that replays deposits, withdrawals and disputes against
//! per-client accounts.
//!
//! Every balance is an exact fixed-point [`types::Amount`]; the account rules
//! are stated once as a mathematical transition ([`client::AccountState::next`]
//! and [`client::AccountState::outcome`]) and the executable code is proved to
//! follow it.

pub mod decimal;
pub mod types;
pub mod client;
pub mod engine;
pub mod laws;
