use vstd::prelude::*;

verus! {

/// Every way an operation on a market can fail.
#[derive(Debug, Clone, Copy, PartialEq, Eq, Structural)]
pub enum ErrorCode {
    /// The curve tag is not one of the four known curves.
    InvalidCurveType,
    /// The buyer cannot pay for the requested amount.
    InsufficientFunds,
    /// A buy was attempted on a time-bomb market that is no longer alive.
    TokenSelfDestructed,
    /// A destroy was attempted on a market that is still alive.
    TokenStillAlive,
    /// A destroy was attempted on a market whose curve is not the time bomb.
    NotTimeBomb,
    /// A price, a settlement amount or a counter does not fit its integer type.
    ArithmeticOverflow,
    /// The sold fraction was needed on a market with a total supply of zero.
    DivisionByZero,
}

impl ErrorCode {
    /// The human-readable message of this error.
    pub fn message(&self) -> (r: &'static str) {
        match self {
            ErrorCode::InvalidCurveType => "Invalid bonding curve type.",
            ErrorCode::InsufficientFunds => "Insufficient funds.",
            ErrorCode::TokenSelfDestructed => "This token has self-destructed.",
            ErrorCode::TokenStillAlive => "Token is still alive and can't be nuked.",
            ErrorCode::NotTimeBomb => "This token is not a Time Bomb.",
            ErrorCode::ArithmeticOverflow => "Arithmetic overflow.",
            ErrorCode::DivisionByZero => "Total supply is zero.",
        }
    }
}

} // verus!
