//! Bonding-curve market engine: prices trades of a fixed-supply token from the
//! number of units already sold, and decides the settlement of launch, buy, sell
//! and destroy operations on a market record.
//!
//! The ledger itself (token transfers, native balances, the clock) lives with the
//! host: every operation here takes the values it needs and returns what must be
//! moved, or an error with the record left untouched.

pub mod curve;
pub mod error;
pub mod market;

pub use curve::{get_price, CurveType};
pub use error::ErrorCode;
pub use market::{
    buy_tokens, is_token_alive, launch_token, nuke_token, sell_tokens, BondingConfig, Settlement,
};
