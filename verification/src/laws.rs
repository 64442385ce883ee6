use vstd::prelude::*;
use crate::custody::{unit_held, AssetUnit};
use crate::error::ErrorCode;
use crate::payment::spec_transfer;
use crate::state::{Listing, RetirementRecord};
use crate::transitions::{spec_buy, spec_cancel, spec_list, spec_mint, spec_retire};

verus! {

// The marketplace-wide laws, proved once over the transition functions that
// every executable operation is proved to implement. Each law quantifies
// over all states and inputs; the scenario tests exercise the same claims on
// concrete values.

/// At most one active listing: after a `List` succeeds for an asset, a
/// second `List` for the same asset, by anyone and without an intervening
/// `Cancel` or `Buy`, fails and changes nothing; when its price is valid it
/// fails precisely because the listing already exists.
pub proof fn lemma_at_most_one_active_listing(
    listings: Map<u64, Listing>,
    units: Map<u64, AssetUnit>,
    first_owner: u64,
    second_owner: u64,
    asset_id: u64,
    first_price: u64,
    second_price: u64,
    first_now: i64,
    second_now: i64,
)
    requires
        spec_list(listings, units, first_owner, asset_id, first_price, first_now).2 is Ok,
    ensures
        ({
            let first = spec_list(listings, units, first_owner, asset_id, first_price, first_now);
            let second = spec_list(
                first.0,
                first.1,
                second_owner,
                asset_id,
                second_price,
                second_now,
            );
            &&& second.2 is Err
            &&& second_price > 0 ==> second.2 == Err::<
                crate::events::ListingCreatedEvent,
                ErrorCode,
            >(ErrorCode::ListingAlreadyExists)
            &&& second.0 == first.0
            &&& second.1 == first.1
        }),
{
}

/// Atomicity of `Buy`: a sale that fails anywhere — missing listing, wrong
/// seller, missing or unlocked unit, or a payment that cannot settle —
/// leaves the listing table, the custody units and the balances exactly as
/// they were; a sale that succeeds moves the payment, hands the unit to the
/// buyer and closes the listing, all together.
pub proof fn lemma_buy_is_atomic(
    listings: Map<u64, Listing>,
    units: Map<u64, AssetUnit>,
    balances: Map<u64, u64>,
    buyer: u64,
    seller: u64,
    asset_id: u64,
    now: i64,
)
    ensures
        ({
            let sale = spec_buy(listings, units, balances, buyer, seller, asset_id, now);
            &&& sale.3 is Err ==> sale.0 == listings && sale.1 == units && sale.2 == balances
            &&& sale.3 is Ok ==> {
                &&& listings.contains_key(asset_id)
                &&& sale.0 == listings.remove(asset_id)
                &&& sale.1 == units.insert(asset_id, (AssetUnit { holder: buyer, frozen: false }))
                &&& sale.2 == spec_transfer(
                    balances,
                    buyer,
                    seller,
                    listings[asset_id].price,
                ).0
            }
        }),
{
}

/// Ownership gate: a `Cancel` by anyone but the listing's owner fails with
/// `InvalidOwner`, and the listing — indeed the whole state — is unchanged.
pub proof fn lemma_cancel_ownership_gate(
    listings: Map<u64, Listing>,
    units: Map<u64, AssetUnit>,
    caller: u64,
    asset_id: u64,
)
    requires
        listings.contains_key(asset_id),
        listings[asset_id].owner != caller,
    ensures
        ({
            let cancel = spec_cancel(listings, units, caller, asset_id);
            &&& cancel.2 == Err::<(), ErrorCode>(ErrorCode::InvalidOwner)
            &&& cancel.0 == listings
            &&& cancel.1 == units
        }),
{
}

/// Price positivity: a `List` with price zero always fails with
/// `InvalidPrice`, whatever the state, and no listing is created.
pub proof fn lemma_list_price_positivity(
    listings: Map<u64, Listing>,
    units: Map<u64, AssetUnit>,
    owner: u64,
    asset_id: u64,
    now: i64,
)
    ensures
        ({
            let listed = spec_list(listings, units, owner, asset_id, 0, now);
            &&& listed.2 == Err::<crate::events::ListingCreatedEvent, ErrorCode>(
                ErrorCode::InvalidPrice,
            )
            &&& listed.0 == listings
            &&& listed.1 == units
        }),
{
}

/// Retirement is terminal and unique: after a `Retire` succeeds, the
/// registry counter has fallen by exactly one (saturating at zero), the
/// permanent record is in the ledger, and a second `Retire` of the same
/// asset, by anyone, fails — the unit was destroyed — changing nothing.
pub proof fn lemma_retirement_is_terminal(
    retirements: Map<u64, RetirementRecord>,
    units: Map<u64, AssetUnit>,
    total_credits: u64,
    owner: u64,
    asset_id: u64,
    beneficiary: u64,
    now: i64,
    second_owner: u64,
    second_beneficiary: u64,
    second_now: i64,
)
    requires
        spec_retire(retirements, units, total_credits, owner, asset_id, beneficiary, now).3 is Ok,
    ensures
        ({
            let first = spec_retire(
                retirements,
                units,
                total_credits,
                owner,
                asset_id,
                beneficiary,
                now,
            );
            let second = spec_retire(
                first.0,
                first.1,
                first.2,
                second_owner,
                asset_id,
                second_beneficiary,
                second_now,
            );
            &&& first.2 == if total_credits > 0 {
                (total_credits - 1) as u64
            } else {
                0u64
            }
            &&& first.0 == retirements.insert(
                asset_id,
                (RetirementRecord { owner, mint: asset_id, retirement_date: now, beneficiary }),
            )
            &&& second.3 == Err::<crate::events::CreditRetiredEvent, ErrorCode>(
                ErrorCode::InvalidTokenBalance,
            )
            &&& second.0 == first.0
            &&& second.1 == first.1
            &&& second.2 == first.2
        }),
{
}

/// The lock invariant: while a listing exists for an asset, that asset's
/// unit sits frozen in the listing owner's hands, so it cannot be moved,
/// burned or listed elsewhere while it is being sold.
pub open spec fn locked_while_listed(
    listings: Map<u64, Listing>,
    units: Map<u64, AssetUnit>,
) -> bool {
    forall|asset_id: u64| #[trigger]
        listings.contains_key(asset_id) ==> unit_held(units, asset_id, listings[asset_id].owner)
            && units[asset_id].frozen
}

/// `Mint` preserves the lock invariant: the new unit belongs to an asset
/// that cannot be listed yet.
pub proof fn lemma_mint_preserves_lock_invariant(
    listings: Map<u64, Listing>,
    units: Map<u64, AssetUnit>,
    retirements: Map<u64, RetirementRecord>,
    total_credits: u64,
    payer: u64,
    asset_id: u64,
    carbon_data: crate::state::CarbonCreditData,
)
    requires
        locked_while_listed(listings, units),
    ensures
        locked_while_listed(
            listings,
            spec_mint(units, retirements, total_credits, payer, asset_id, carbon_data).0,
        ),
{
    let minted = spec_mint(units, retirements, total_credits, payer, asset_id, carbon_data).0;
    assert forall|other: u64| #[trigger]
        listings.contains_key(other) implies unit_held(minted, other, listings[other].owner)
        && minted[other].frozen by {
        assert(unit_held(units, other, listings[other].owner));
    }
}

/// `List` preserves the lock invariant: the new listing's unit is frozen in
/// its owner's hands the moment the listing exists.
pub proof fn lemma_list_preserves_lock_invariant(
    listings: Map<u64, Listing>,
    units: Map<u64, AssetUnit>,
    owner: u64,
    asset_id: u64,
    price: u64,
    now: i64,
)
    requires
        locked_while_listed(listings, units),
    ensures
        ({
            let listed = spec_list(listings, units, owner, asset_id, price, now);
            locked_while_listed(listed.0, listed.1)
        }),
{
    let listed = spec_list(listings, units, owner, asset_id, price, now);
    assert forall|other: u64| #[trigger]
        listed.0.contains_key(other) implies unit_held(listed.1, other, listed.0[other].owner)
        && listed.1[other].frozen by {
        if other != asset_id {
            assert(listings.contains_key(other));
            assert(unit_held(units, other, listings[other].owner));
        }
    }
}

/// `Cancel` preserves the lock invariant: only the cancelled listing's own
/// lock is released.
pub proof fn lemma_cancel_preserves_lock_invariant(
    listings: Map<u64, Listing>,
    units: Map<u64, AssetUnit>,
    caller: u64,
    asset_id: u64,
)
    requires
        locked_while_listed(listings, units),
    ensures
        ({
            let cancelled = spec_cancel(listings, units, caller, asset_id);
            locked_while_listed(cancelled.0, cancelled.1)
        }),
{
    let cancelled = spec_cancel(listings, units, caller, asset_id);
    assert forall|other: u64| #[trigger]
        cancelled.0.contains_key(other) implies unit_held(
        cancelled.1,
        other,
        cancelled.0[other].owner,
    ) && cancelled.1[other].frozen by {
        assert(listings.contains_key(other));
        assert(unit_held(units, other, listings[other].owner));
    }
}

/// `Buy` preserves the lock invariant: the sold asset leaves the table, and
/// every other listing's lock is untouched.
pub proof fn lemma_buy_preserves_lock_invariant(
    listings: Map<u64, Listing>,
    units: Map<u64, AssetUnit>,
    balances: Map<u64, u64>,
    buyer: u64,
    seller: u64,
    asset_id: u64,
    now: i64,
)
    requires
        locked_while_listed(listings, units),
    ensures
        ({
            let sale = spec_buy(listings, units, balances, buyer, seller, asset_id, now);
            locked_while_listed(sale.0, sale.1)
        }),
{
    let sale = spec_buy(listings, units, balances, buyer, seller, asset_id, now);
    assert forall|other: u64| #[trigger]
        sale.0.contains_key(other) implies unit_held(sale.1, other, sale.0[other].owner)
        && sale.1[other].frozen by {
        assert(listings.contains_key(other));
        assert(unit_held(units, other, listings[other].owner));
    }
}

/// `Retire` preserves the lock invariant: a locked unit refuses the burn, so
/// only an unlisted asset's unit can be destroyed.
pub proof fn lemma_retire_preserves_lock_invariant(
    listings: Map<u64, Listing>,
    units: Map<u64, AssetUnit>,
    retirements: Map<u64, RetirementRecord>,
    total_credits: u64,
    owner: u64,
    asset_id: u64,
    beneficiary: u64,
    now: i64,
)
    requires
        locked_while_listed(listings, units),
    ensures
        ({
            let retired = spec_retire(
                retirements,
                units,
                total_credits,
                owner,
                asset_id,
                beneficiary,
                now,
            );
            locked_while_listed(listings, retired.1)
        }),
{
    let retired = spec_retire(retirements, units, total_credits, owner, asset_id, beneficiary, now);
    assert forall|other: u64| #[trigger]
        listings.contains_key(other) implies unit_held(retired.1, other, listings[other].owner)
        && retired.1[other].frozen by {
        assert(unit_held(units, other, listings[other].owner));
        if retired.3 is Ok {
            assert(other != asset_id);
        }
    }
}

} // verus!
