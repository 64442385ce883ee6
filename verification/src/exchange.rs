use vstd::prelude::*;
use std::collections::HashMap;
use crate::custody::AssetCustody;
use crate::error::ErrorCode;
use crate::events::{CarbonCreditMintedEvent, CreditRetiredEvent, ListingCreatedEvent, SaleCompletedEvent};
use crate::payment::PaymentLedger;
use crate::state::{CarbonCreditData, CarbonExchange, Listing, RetirementRecord};
use crate::transitions::{spec_buy, spec_cancel, spec_list, spec_mint, spec_retire};

verus! {

broadcast use vstd::std_specs::hash::group_hash_axioms;

/// Well-formedness of a listing table: each row is keyed by the asset it
/// concerns and no active listing carries a zero price.
pub open spec fn listings_wf(listings: Map<u64, Listing>) -> bool {
    forall|asset_id: u64| #[trigger]
        listings.contains_key(asset_id) ==> listings[asset_id].mint == asset_id
            && listings[asset_id].price > 0
}

/// Well-formedness of a retirement ledger: each record is keyed by the asset
/// it retired.
pub open spec fn retirements_wf(retirements: Map<u64, RetirementRecord>) -> bool {
    forall|asset_id: u64| #[trigger]
        retirements.contains_key(asset_id) ==> retirements[asset_id].mint == asset_id
}

/// A well-formed listing table stays well-formed when a well-formed row is
/// inserted.
proof fn lemma_listings_wf_insert(listings: Map<u64, Listing>, asset_id: u64, listing: Listing)
    requires
        listings_wf(listings),
        listing.mint == asset_id,
        listing.price > 0,
    ensures
        listings_wf(listings.insert(asset_id, listing)),
{
    assert forall|other: u64| #[trigger]
        listings.insert(asset_id, listing).contains_key(other) implies listings.insert(
        asset_id,
        listing,
    )[other].mint == other && listings.insert(asset_id, listing)[other].price > 0 by {
        if other != asset_id {
            assert(listings.contains_key(other));
        }
    }
}

/// A well-formed listing table stays well-formed when a row is removed.
proof fn lemma_listings_wf_remove(listings: Map<u64, Listing>, asset_id: u64)
    requires
        listings_wf(listings),
    ensures
        listings_wf(listings.remove(asset_id)),
{
    assert forall|other: u64| #[trigger]
        listings.remove(asset_id).contains_key(other) implies listings.remove(
        asset_id,
    )[other].mint == other && listings.remove(asset_id)[other].price > 0 by {
        assert(listings.contains_key(other));
    }
}

/// A well-formed retirement ledger stays well-formed when a well-formed
/// record is appended.
proof fn lemma_retirements_wf_insert(
    retirements: Map<u64, RetirementRecord>,
    asset_id: u64,
    record: RetirementRecord,
)
    requires
        retirements_wf(retirements),
        record.mint == asset_id,
    ensures
        retirements_wf(retirements.insert(asset_id, record)),
{
    assert forall|other: u64| #[trigger]
        retirements.insert(asset_id, record).contains_key(other) implies retirements.insert(
        asset_id,
        record,
    )[other].mint == other by {
        if other != asset_id {
            assert(retirements.contains_key(other));
        }
    }
}

/// The marketplace's durable state: the registry row, the table of active
/// listings keyed by asset, and the append-only retirement ledger keyed by
/// asset. The listing lifecycle engine drives it against the external
/// custody and payment ledgers; every operation is all-or-nothing, and each
/// is proved to implement its transition from `transitions` exactly.
pub struct Exchange {
    registry: CarbonExchange,
    listings: HashMap<u64, Listing>,
    retirements: HashMap<u64, RetirementRecord>,
}

impl Exchange {
    /// The registry row: authority and outstanding-asset counter.
    pub closed spec fn registry(&self) -> CarbonExchange {
        self.registry
    }

    /// The table of active listings, keyed by asset.
    pub closed spec fn listings(&self) -> Map<u64, Listing> {
        self.listings@
    }

    /// The permanent retirement records, keyed by asset.
    pub closed spec fn retirements(&self) -> Map<u64, RetirementRecord> {
        self.retirements@
    }

    /// Well-formedness: the listing table and the retirement ledger are each
    /// keyed by the asset they concern, and no active listing carries a zero
    /// price.
    pub open spec fn wf(&self) -> bool {
        listings_wf(self.listings()) && retirements_wf(self.retirements())
    }

    /// Creates the marketplace at bootstrap: an empty listing table, an
    /// empty retirement ledger, and a registry with no assets outstanding.
    pub fn initialize(authority: u64) -> (exchange: Exchange)
        ensures
            exchange.wf(),
            exchange.registry() == (CarbonExchange { authority, total_credits: 0 }),
            exchange.listings() == Map::<u64, Listing>::empty(),
            exchange.retirements() == Map::<u64, RetirementRecord>::empty(),
    {
        Exchange {
            registry: CarbonExchange::new(authority),
            listings: HashMap::new(),
            retirements: HashMap::new(),
        }
    }

    /// `Mint`: records a freshly minted asset, creating its single unit in
    /// the payer's hands and raising the registry counter.
    pub fn mint_carbon_credit(
        &mut self,
        custody: &mut AssetCustody,
        payer: u64,
        asset_id: u64,
        carbon_data: CarbonCreditData,
    ) -> (result: Result<CarbonCreditMintedEvent, ErrorCode>)
        requires
            old(self).wf(),
            old(self).registry().total_credits < u64::MAX,
        ensures
            final(self).wf(),
            ({
                let (units, total_credits, outcome) = spec_mint(
                    old(custody)@,
                    old(self).retirements(),
                    old(self).registry().total_credits,
                    payer,
                    asset_id,
                    carbon_data,
                );
                &&& final(custody)@ == units
                &&& final(self).registry().total_credits == total_credits
                &&& result == outcome
            }),
            final(self).registry().authority == old(self).registry().authority,
            final(self).listings() == old(self).listings(),
            final(self).retirements() == old(self).retirements(),
    {
        if self.retirements.contains_key(&asset_id) {
            return Err(ErrorCode::AlreadyRetired);
        }
        let minted = custody.mint_unit(asset_id, payer);
        if !minted {
            // A unit of this asset already exists: an asset is minted once.
            return Err(ErrorCode::InvalidMint);
        }
        self.registry.record_mint();
        Ok(
            CarbonCreditMintedEvent {
                mint: asset_id,
                owner: payer,
                project_name: carbon_data.project_name,
                project_id: carbon_data.project_id,
                vintage_year: carbon_data.vintage_year,
                metric_tons: carbon_data.metric_tons,
            },
        )
    }

    /// `List`: offers an owned asset for sale at a fixed positive price,
    /// locking its unit in the owner's hands for the listing's lifetime.
    pub fn list_for_sale(
        &mut self,
        custody: &mut AssetCustody,
        owner: u64,
        asset_id: u64,
        price: u64,
        now: i64,
    ) -> (result: Result<ListingCreatedEvent, ErrorCode>)
        requires
            old(self).wf(),
        ensures
            final(self).wf(),
            ({
                let (listings, units, outcome) = spec_list(
                    old(self).listings(),
                    old(custody)@,
                    owner,
                    asset_id,
                    price,
                    now,
                );
                &&& final(self).listings() == listings
                &&& final(custody)@ == units
                &&& result == outcome
            }),
            final(self).registry() == old(self).registry(),
            final(self).retirements() == old(self).retirements(),
    {
        if price == 0 {
            return Err(ErrorCode::InvalidPrice);
        }
        if self.listings.contains_key(&asset_id) {
            return Err(ErrorCode::ListingAlreadyExists);
        }
        let locked = custody.freeze(asset_id, owner);
        if !locked {
            return Err(ErrorCode::InvalidTokenBalance);
        }
        self.listings.insert(asset_id, Listing { owner, mint: asset_id, price });
        proof {
            lemma_listings_wf_insert(
                old(self).listings(),
                asset_id,
                Listing { owner, mint: asset_id, price },
            );
        }
        Ok(ListingCreatedEvent { mint: asset_id, owner, price, timestamp: now })
    }

    /// `Cancel`: destroys the caller's own listing, releasing the lock it
    /// held on the asset's unit.
    pub fn cancel_listing(&mut self, custody: &mut AssetCustody, caller: u64, asset_id: u64) -> (result:
        Result<(), ErrorCode>)
        requires
            old(self).wf(),
        ensures
            final(self).wf(),
            ({
                let (listings, units, outcome) = spec_cancel(
                    old(self).listings(),
                    old(custody)@,
                    caller,
                    asset_id,
                );
                &&& final(self).listings() == listings
                &&& final(custody)@ == units
                &&& result == outcome
            }),
            final(self).registry() == old(self).registry(),
            final(self).retirements() == old(self).retirements(),
    {
        let looked_up = match self.listings.get(&asset_id) {
            Some(listing) => Some(*listing),
            None => None,
        };
        let listing = match looked_up {
            Some(listing) => listing,
            None => {
                return Err(ErrorCode::ListingNotFound);
            },
        };
        if listing.owner != caller {
            return Err(ErrorCode::InvalidOwner);
        }
        // Release the listing's lock where it is still in place; a listing
        // whose lock was tampered with from outside is still cancellable.
        let _ = custody.unfreeze(asset_id, caller);
        self.listings.remove(&asset_id);
        proof {
            lemma_listings_wf_remove(old(self).listings(), asset_id);
        }
        Ok(())
    }

    /// `Buy`: completes a sale as a single atomic unit. The payment is
    /// settled first; the asset's unit is then unlocked and handed to the
    /// buyer, and the listing is destroyed. A failure at any step leaves
    /// every ledger exactly as it was.
    pub fn buy_carbon_credit(
        &mut self,
        custody: &mut AssetCustody,
        payments: &mut PaymentLedger,
        buyer: u64,
        seller: u64,
        asset_id: u64,
        now: i64,
    ) -> (result: Result<SaleCompletedEvent, ErrorCode>)
        requires
            old(self).wf(),
        ensures
            final(self).wf(),
            ({
                let (listings, units, balances, outcome) = spec_buy(
                    old(self).listings(),
                    old(custody)@,
                    old(payments)@,
                    buyer,
                    seller,
                    asset_id,
                    now,
                );
                &&& final(self).listings() == listings
                &&& final(custody)@ == units
                &&& final(payments)@ == balances
                &&& result == outcome
            }),
            final(self).registry() == old(self).registry(),
            final(self).retirements() == old(self).retirements(),
    {
        let looked_up = match self.listings.get(&asset_id) {
            Some(listing) => Some(*listing),
            None => None,
        };
        let listing = match looked_up {
            Some(listing) => listing,
            None => {
                return Err(ErrorCode::ListingNotFound);
            },
        };
        if listing.owner != seller {
            return Err(ErrorCode::InvalidOwner);
        }
        let held_by_seller = match custody.holder_of(asset_id) {
            Some(holder) => holder == seller,
            None => false,
        };
        if !held_by_seller {
            return Err(ErrorCode::InvalidTokenBalance);
        }
        if !custody.is_frozen(asset_id) {
            return Err(ErrorCode::NFTNotLocked);
        }
        // Settle the payment first; a failure aborts the sale with nothing
        // moved and the listing intact.
        match payments.transfer(buyer, seller, listing.price) {
            Ok(_) => {},
            Err(failure) => {
                return Err(failure);
            },
        }
        // The unit was checked to sit frozen in the seller's hands, so the
        // unlock and the unit transfer below cannot fail: the sale that
        // settled its payment always delivers the asset.
        let unlocked = custody.unfreeze(asset_id, seller);
        if !unlocked {
            return Err(ErrorCode::NFTNotLocked);
        }
        let delivered = custody.transfer(asset_id, seller, buyer);
        if !delivered {
            return Err(ErrorCode::TokenTransferFailed);
        }
        self.listings.remove(&asset_id);
        proof {
            lemma_listings_wf_remove(old(self).listings(), asset_id);
        }
        Ok(
            SaleCompletedEvent {
                mint: asset_id,
                seller,
                buyer,
                price: listing.price,
                timestamp: now,
                listing_closed: true,
            },
        )
    }

    /// `Retire`: permanently destroys the caller's asset unit, appends the
    /// one retirement record crediting the beneficiary, and lowers the
    /// registry counter, saturating at zero. Irreversible.
    pub fn retire_carbon_credit(
        &mut self,
        custody: &mut AssetCustody,
        owner: u64,
        asset_id: u64,
        beneficiary: u64,
        now: i64,
    ) -> (result: Result<CreditRetiredEvent, ErrorCode>)
        requires
            old(self).wf(),
        ensures
            final(self).wf(),
            ({
                let (retirements, units, total_credits, outcome) = spec_retire(
                    old(self).retirements(),
                    old(custody)@,
                    old(self).registry().total_credits,
                    owner,
                    asset_id,
                    beneficiary,
                    now,
                );
                &&& final(self).retirements() == retirements
                &&& final(custody)@ == units
                &&& final(self).registry().total_credits == total_credits
                &&& result == outcome
            }),
            final(self).registry().authority == old(self).registry().authority,
            final(self).listings() == old(self).listings(),
    {
        let held_by_owner = match custody.holder_of(asset_id) {
            Some(holder) => holder == owner,
            None => false,
        };
        if !held_by_owner {
            return Err(ErrorCode::InvalidTokenBalance);
        }
        if self.retirements.contains_key(&asset_id) {
            return Err(ErrorCode::AlreadyRetired);
        }
        let burned = custody.burn(asset_id, owner);
        if !burned {
            // The unit is frozen under an active listing's lock; burning it
            // would leave the listing dangling, so the burn is refused.
            return Err(ErrorCode::TokenBurnFailed);
        }
        self.retirements.insert(
            asset_id,
            RetirementRecord { owner, mint: asset_id, retirement_date: now, beneficiary },
        );
        proof {
            lemma_retirements_wf_insert(
                old(self).retirements(),
                asset_id,
                RetirementRecord { owner, mint: asset_id, retirement_date: now, beneficiary },
            );
        }
        self.registry.record_retire();
        Ok(CreditRetiredEvent { mint: asset_id, owner, beneficiary, retirement_date: now })
    }

    /// The count of outstanding (minted and not yet retired) assets.
    pub fn total_credits(&self) -> (count: u64)
        ensures
            count == self.registry().total_credits,
    {
        self.registry.total_credits
    }

    /// The identity that created the registry.
    pub fn authority(&self) -> (authority: u64)
        ensures
            authority == self.registry().authority,
    {
        self.registry.authority
    }

    /// The active listing for `asset_id`, if one exists.
    pub fn get_listing(&self, asset_id: u64) -> (listing: Option<Listing>)
        ensures
            match listing {
                Some(found) => self.listings().contains_key(asset_id)
                    && found == self.listings()[asset_id],
                None => !self.listings().contains_key(asset_id),
            },
    {
        match self.listings.get(&asset_id) {
            Some(listing) => Some(*listing),
            None => None,
        }
    }

    /// The permanent retirement record for `asset_id`, if one exists.
    pub fn get_retirement(&self, asset_id: u64) -> (record: Option<RetirementRecord>)
        ensures
            match record {
                Some(found) => self.retirements().contains_key(asset_id) && found
                    == self.retirements()[asset_id],
                None => !self.retirements().contains_key(asset_id),
            },
    {
        match self.retirements.get(&asset_id) {
            Some(record) => Some(*record),
            None => None,
        }
    }
}

} // verus!
