//! The failures that the sale and the airdrop report.

use vstd::prelude::*;

verus! {

/// Every failure is terminal for the request that met it: the caller issues a
/// new request, or waits for the state to change.
#[derive(Clone, Copy, Debug, PartialEq, Eq, Structural)]
pub enum ErrorCode {
    NotInitialized,
    Unauthorized,
    SalePaused,
    InvalidAmount,
    Overflow,
    InvalidTreasury,
    InvalidMint,
    InsufficientPayment,
    SaleEnded,
    RoundLimitExceeded,
    InvalidConfig,
    InvalidPriceAccount,
    PriceNotAvailable,
    InvalidPrice,
    StalePrice,
    PriceTooVolatile,
    PythAccountNotFound,
    InvalidPythAccount,
    InvalidUsdcMint,
    InvalidEurcMint,
    /// The custodian reported that the payment transfer failed.
    TransferFailed,
    /// The custodian reported that the mint failed.
    MintFailed,
}

impl ErrorCode {
    /// The text shown to a user for this failure.
    pub open spec fn spec_message(self) -> Seq<char> {
        match self {
            ErrorCode::NotInitialized => "Not initialized"@,
            ErrorCode::Unauthorized => "Unauthorized"@,
            ErrorCode::SalePaused => "Sale is paused"@,
            ErrorCode::InvalidAmount => "Invalid amount"@,
            ErrorCode::Overflow => "Overflow"@,
            ErrorCode::InvalidTreasury => "Invalid treasury address"@,
            ErrorCode::InvalidMint => "Invalid mint address"@,
            ErrorCode::InsufficientPayment => "Insufficient payment"@,
            ErrorCode::SaleEnded => "Sale has ended"@,
            ErrorCode::RoundLimitExceeded => "Round limit exceeded"@,
            ErrorCode::InvalidConfig => "Invalid config account"@,
            ErrorCode::InvalidPriceAccount => "Invalid price account"@,
            ErrorCode::PriceNotAvailable => "Price not available"@,
            ErrorCode::InvalidPrice => "Invalid price"@,
            ErrorCode::StalePrice => "Stale price"@,
            ErrorCode::PriceTooVolatile => "Price too volatile"@,
            ErrorCode::PythAccountNotFound => "Pyth price account not found"@,
            ErrorCode::InvalidPythAccount => "Invalid Pyth account"@,
            ErrorCode::InvalidUsdcMint => "Invalid USDC mint address"@,
            ErrorCode::InvalidEurcMint => "Invalid EURC mint address"@,
            ErrorCode::TransferFailed => "Payment transfer failed"@,
            ErrorCode::MintFailed => "Token mint failed"@,
        }
    }

    /// The text shown to a user for this failure.
    pub fn message(&self) -> (text: &'static str)
        ensures
            text@ == self.spec_message(),
    {
        match self {
            ErrorCode::NotInitialized => "Not initialized",
            ErrorCode::Unauthorized => "Unauthorized",
            ErrorCode::SalePaused => "Sale is paused",
            ErrorCode::InvalidAmount => "Invalid amount",
            ErrorCode::Overflow => "Overflow",
            ErrorCode::InvalidTreasury => "Invalid treasury address",
            ErrorCode::InvalidMint => "Invalid mint address",
            ErrorCode::InsufficientPayment => "Insufficient payment",
            ErrorCode::SaleEnded => "Sale has ended",
            ErrorCode::RoundLimitExceeded => "Round limit exceeded",
            ErrorCode::InvalidConfig => "Invalid config account",
            ErrorCode::InvalidPriceAccount => "Invalid price account",
            ErrorCode::PriceNotAvailable => "Price not available",
            ErrorCode::InvalidPrice => "Invalid price",
            ErrorCode::StalePrice => "Stale price",
            ErrorCode::PriceTooVolatile => "Price too volatile",
            ErrorCode::PythAccountNotFound => "Pyth price account not found",
            ErrorCode::InvalidPythAccount => "Invalid Pyth account",
            ErrorCode::InvalidUsdcMint => "Invalid USDC mint address",
            ErrorCode::InvalidEurcMint => "Invalid EURC mint address",
            ErrorCode::TransferFailed => "Payment transfer failed",
            ErrorCode::MintFailed => "Token mint failed",
        }
    }
}

} // verus!
