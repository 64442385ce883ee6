use vstd::prelude::*;

verus! {

/// Typed failure of a single marketplace operation.
///
/// Every failure is scoped to the one requested operation: no operation
/// leaves partial durable state behind, and no error is retried by the core.
#[derive(Clone, Copy, Debug, PartialEq, Eq, Structural)]
pub enum ErrorCode {
    /// The price handed to a listing was not greater than zero.
    InvalidPrice,
    /// The caller does not hold exactly one unit of the asset.
    InvalidTokenBalance,
    /// The buyer's balance cannot cover the listing's price.
    InsufficientFunds,
    /// The payment ledger refused the balance transfer.
    TransferFailed,
    /// The caller does not match the record's owner or seller.
    InvalidOwner,
    /// The asset presented does not match, or cannot be minted.
    InvalidMint,
    /// The custody ledger refused the unit transfer.
    TokenTransferFailed,
    /// The custody ledger refused to burn the unit.
    TokenBurnFailed,
    /// The asset was expected to be frozen while listed, but is not.
    NFTNotLocked,
    /// A listing already exists for the asset.
    ListingAlreadyExists,
    /// No listing exists for the asset.
    ListingNotFound,
    /// A retirement record already exists for the asset.
    AlreadyRetired,
}

impl ErrorCode {
    /// A short description of the failure, in place of `Display`.
    pub fn message(&self) -> &'static str {
        match self {
            ErrorCode::InvalidPrice => "the provided price must be greater than zero",
            ErrorCode::InvalidTokenBalance => "token balance must be exactly 1",
            ErrorCode::InsufficientFunds => "insufficient funds to complete purchase",
            ErrorCode::TransferFailed => "balance transfer failed",
            ErrorCode::InvalidOwner => "invalid listing owner",
            ErrorCode::InvalidMint => "invalid mint",
            ErrorCode::TokenTransferFailed => "token transfer failed",
            ErrorCode::TokenBurnFailed => "token burn failed",
            ErrorCode::NFTNotLocked => "token must be locked while listed",
            ErrorCode::ListingAlreadyExists => "a listing already exists for this asset",
            ErrorCode::ListingNotFound => "no listing exists for this asset",
            ErrorCode::AlreadyRetired => "a retirement record already exists for this asset",
        }
    }
}

} // verus!
