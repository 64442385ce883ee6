use vstd::prelude::*;

verus! {

/// Notification that a listing was created by `List`.
#[derive(Clone, Copy, Debug, PartialEq, Eq, Structural)]
pub struct ListingCreatedEvent {
    pub mint: u64,
    pub owner: u64,
    pub price: u64,
    pub timestamp: i64,
}

/// Notification that a sale completed: payment and asset moved together and
/// the listing was closed.
#[derive(Clone, Copy, Debug, PartialEq, Eq, Structural)]
pub struct SaleCompletedEvent {
    pub mint: u64,
    pub seller: u64,
    pub buyer: u64,
    pub price: u64,
    pub timestamp: i64,
    pub listing_closed: bool,
}

/// Notification that an asset was permanently retired on behalf of a
/// beneficiary.
#[derive(Clone, Copy, Debug, PartialEq, Eq, Structural)]
pub struct CreditRetiredEvent {
    pub mint: u64,
    pub owner: u64,
    pub beneficiary: u64,
    pub retirement_date: i64,
}

/// Notification that a new carbon-credit asset was minted, echoing its
/// descriptive fields.
#[derive(Clone, Debug)]
pub struct CarbonCreditMintedEvent {
    pub mint: u64,
    pub owner: u64,
    pub project_name: String,
    pub project_id: String,
    pub vintage_year: u16,
    pub metric_tons: u64,
}

} // verus!
