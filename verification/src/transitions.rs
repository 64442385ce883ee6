use vstd::prelude::*;
use crate::custody::{unit_free, unit_held, AssetUnit};
use crate::error::ErrorCode;
use crate::events::{CarbonCreditMintedEvent, CreditRetiredEvent, ListingCreatedEvent, SaleCompletedEvent};
use crate::payment::spec_transfer;
use crate::state::{CarbonCreditData, Listing, RetirementRecord};

verus! {

// The intended behaviour of every marketplace operation, written once as a
// transition over the mathematical views of the durable state: the listing
// table and retirement ledger keyed by asset, the custody ledger's units,
// the payment ledger's balances, and the registry counter. Each executable
// operation is proved to implement its transition exactly, and the
// marketplace laws are proved over these transitions.

/// One `Mint`: the new state of the custody units and the registry counter,
/// and the reported outcome.
///
/// Minting fails with `AlreadyRetired` when the asset was retired — a
/// retired asset is never resurrected — and with `InvalidMint` when a unit
/// of the asset already exists. Otherwise the single unit appears, unfrozen,
/// in the payer's hands, and the registry counter rises by one.
pub open spec fn spec_mint(
    units: Map<u64, AssetUnit>,
    retirements: Map<u64, RetirementRecord>,
    total_credits: u64,
    payer: u64,
    asset_id: u64,
    carbon_data: CarbonCreditData,
) -> (Map<u64, AssetUnit>, u64, Result<CarbonCreditMintedEvent, ErrorCode>) {
    if retirements.contains_key(asset_id) {
        (units, total_credits, Err(ErrorCode::AlreadyRetired))
    } else if units.contains_key(asset_id) {
        (units, total_credits, Err(ErrorCode::InvalidMint))
    } else {
        (
            units.insert(asset_id, AssetUnit { holder: payer, frozen: false }),
            (total_credits + 1) as u64,
            Ok(
                CarbonCreditMintedEvent {
                    mint: asset_id,
                    owner: payer,
                    project_name: carbon_data.project_name,
                    project_id: carbon_data.project_id,
                    vintage_year: carbon_data.vintage_year,
                    metric_tons: carbon_data.metric_tons,
                },
            ),
        )
    }
}

/// One `List`: the new listing table and custody units, and the outcome.
///
/// Listing fails with `InvalidPrice` when the price is zero, with
/// `ListingAlreadyExists` when a listing for the asset is active, and with
/// `InvalidTokenBalance` when the caller does not hold the asset's unit free
/// of any lock. Otherwise the listing is created and the unit is frozen in
/// the owner's hands for the listing's lifetime.
pub open spec fn spec_list(
    listings: Map<u64, Listing>,
    units: Map<u64, AssetUnit>,
    owner: u64,
    asset_id: u64,
    price: u64,
    now: i64,
) -> (Map<u64, Listing>, Map<u64, AssetUnit>, Result<ListingCreatedEvent, ErrorCode>) {
    if price == 0 {
        (listings, units, Err(ErrorCode::InvalidPrice))
    } else if listings.contains_key(asset_id) {
        (listings, units, Err(ErrorCode::ListingAlreadyExists))
    } else if !unit_free(units, asset_id, owner) {
        (listings, units, Err(ErrorCode::InvalidTokenBalance))
    } else {
        (
            listings.insert(asset_id, Listing { owner, mint: asset_id, price }),
            units.insert(asset_id, AssetUnit { holder: owner, frozen: true }),
            Ok(ListingCreatedEvent { mint: asset_id, owner, price, timestamp: now }),
        )
    }
}

/// One `Cancel`: the new listing table and custody units, and the outcome.
///
/// Cancelling fails with `ListingNotFound` when no listing exists for the
/// asset and with `InvalidOwner` when the caller is not the listing's owner;
/// a failed cancel changes nothing. Otherwise the listing is destroyed, and
/// the lock it held on the unit is released if it is still in place.
pub open spec fn spec_cancel(
    listings: Map<u64, Listing>,
    units: Map<u64, AssetUnit>,
    caller: u64,
    asset_id: u64,
) -> (Map<u64, Listing>, Map<u64, AssetUnit>, Result<(), ErrorCode>) {
    if !listings.contains_key(asset_id) {
        (listings, units, Err(ErrorCode::ListingNotFound))
    } else if listings[asset_id].owner != caller {
        (listings, units, Err(ErrorCode::InvalidOwner))
    } else {
        let released = if unit_held(units, asset_id, caller) && units[asset_id].frozen {
            units.insert(asset_id, AssetUnit { holder: caller, frozen: false })
        } else {
            units
        };
        (listings.remove(asset_id), released, Ok(()))
    }
}

/// One `Buy`: the new listing table, custody units and balances, and the
/// outcome.
///
/// Buying fails with `ListingNotFound` when no listing exists, with
/// `InvalidOwner` when the listing's owner is not the named seller, with
/// `InvalidTokenBalance` when the seller no longer holds the unit, with
/// `NFTNotLocked` when the unit is not frozen under the listing's lock, and
/// with the payment ledger's own error when the payment cannot be settled.
/// Any failure leaves every ledger unchanged. On success, payment and asset
/// move together: the price passes from buyer to seller, the unit passes
/// unfrozen to the buyer, and the listing is destroyed.
pub open spec fn spec_buy(
    listings: Map<u64, Listing>,
    units: Map<u64, AssetUnit>,
    balances: Map<u64, u64>,
    buyer: u64,
    seller: u64,
    asset_id: u64,
    now: i64,
) -> (
    Map<u64, Listing>,
    Map<u64, AssetUnit>,
    Map<u64, u64>,
    Result<SaleCompletedEvent, ErrorCode>,
) {
    if !listings.contains_key(asset_id) {
        (listings, units, balances, Err(ErrorCode::ListingNotFound))
    } else if listings[asset_id].owner != seller {
        (listings, units, balances, Err(ErrorCode::InvalidOwner))
    } else if !unit_held(units, asset_id, seller) {
        (listings, units, balances, Err(ErrorCode::InvalidTokenBalance))
    } else if !units[asset_id].frozen {
        (listings, units, balances, Err(ErrorCode::NFTNotLocked))
    } else {
        let price = listings[asset_id].price;
        let (moved, outcome) = spec_transfer(balances, buyer, seller, price);
        match outcome {
            Err(failure) => (listings, units, balances, Err(failure)),
            Ok(_) => (
                listings.remove(asset_id),
                units.insert(asset_id, AssetUnit { holder: buyer, frozen: false }),
                moved,
                Ok(
                    SaleCompletedEvent {
                        mint: asset_id,
                        seller,
                        buyer,
                        price,
                        timestamp: now,
                        listing_closed: true,
                    },
                ),
            ),
        }
    }
}

/// One `Retire`: the new retirement ledger, custody units and registry
/// counter, and the outcome.
///
/// Retiring fails with `InvalidTokenBalance` when the caller does not hold
/// the asset's unit, with `AlreadyRetired` when a retirement record already
/// exists for the asset, and with `TokenBurnFailed` when the unit is frozen:
/// an active listing's lock refuses the burn, so no listing is left
/// dangling. Otherwise the unit is destroyed for good, the permanent record
/// is appended, and the registry counter falls by one, saturating at zero.
pub open spec fn spec_retire(
    retirements: Map<u64, RetirementRecord>,
    units: Map<u64, AssetUnit>,
    total_credits: u64,
    owner: u64,
    asset_id: u64,
    beneficiary: u64,
    now: i64,
) -> (Map<u64, RetirementRecord>, Map<u64, AssetUnit>, u64, Result<CreditRetiredEvent, ErrorCode>) {
    if !unit_held(units, asset_id, owner) {
        (retirements, units, total_credits, Err(ErrorCode::InvalidTokenBalance))
    } else if retirements.contains_key(asset_id) {
        (retirements, units, total_credits, Err(ErrorCode::AlreadyRetired))
    } else if units[asset_id].frozen {
        (retirements, units, total_credits, Err(ErrorCode::TokenBurnFailed))
    } else {
        (
            retirements.insert(
                asset_id,
                RetirementRecord { owner, mint: asset_id, retirement_date: now, beneficiary },
            ),
            units.remove(asset_id),
            if total_credits > 0 {
                (total_credits - 1) as u64
            } else {
                0u64
            },
            Ok(CreditRetiredEvent { mint: asset_id, owner, beneficiary, retirement_date: now }),
        )
    }
}

} // verus!
