use vstd::prelude::*;

verus! {

/// The exchange-wide registry: a singleton row counting the assets that are
/// currently outstanding (minted and not yet retired).
#[derive(Clone, Copy, Debug, PartialEq, Eq, Structural)]
pub struct CarbonExchange {
    /// Identity that created the registry; informational only.
    pub authority: u64,
    /// Count of outstanding assets: raised on mint, lowered (saturating at
    /// zero) on retirement.
    pub total_credits: u64,
}

impl CarbonExchange {
    /// Creates the registry at bootstrap, with no assets outstanding.
    pub fn new(authority: u64) -> (registry: CarbonExchange)
        ensures
            registry == (CarbonExchange { authority, total_credits: 0 }),
    {
        CarbonExchange { authority, total_credits: 0 }
    }

    /// Records one successful mint.
    pub fn record_mint(&mut self)
        requires
            old(self).total_credits < u64::MAX,
        ensures
            final(self).authority == old(self).authority,
            final(self).total_credits == old(self).total_credits + 1,
    {
        self.total_credits = self.total_credits + 1;
    }

    /// Records one retirement; the count saturates at zero.
    pub fn record_retire(&mut self)
        ensures
            final(self).authority == old(self).authority,
            final(self).total_credits == if old(self).total_credits > 0 {
                (old(self).total_credits - 1) as u64
            } else {
                0u64
            },
    {
        self.total_credits = if self.total_credits > 0 {
            self.total_credits - 1
        } else {
            0
        };
    }
}

/// A durable offer of one owned asset for sale at a fixed positive price.
/// At most one listing exists per asset at any time; the listing is destroyed
/// by the sale that completes it or by its owner's cancellation.
#[derive(Clone, Copy, Debug, PartialEq, Eq, Structural)]
pub struct Listing {
    /// Identity that created the listing; the asset's holder at creation.
    pub owner: u64,
    /// The unique asset this listing concerns.
    pub mint: u64,
    /// Amount required to purchase; always greater than zero.
    pub price: u64,
}

/// The permanent, append-only proof that an asset was retired: its unit was
/// destroyed and its environmental claim credited to a beneficiary.
#[derive(Clone, Copy, Debug, PartialEq, Eq, Structural)]
pub struct RetirementRecord {
    /// Identity that retired the asset.
    pub owner: u64,
    /// The retired asset.
    pub mint: u64,
    /// Timestamp of the retirement.
    pub retirement_date: i64,
    /// Identity credited with the environmental claim.
    pub beneficiary: u64,
}

/// Descriptive fields of a carbon-credit asset, supplied by the minting
/// collaborator and echoed in the mint notification.
#[derive(Clone, Debug)]
pub struct CarbonCreditData {
    pub project_name: String,
    pub project_id: String,
    pub vintage_year: u16,
    pub metric_tons: u64,
    pub validator: String,
    pub standard: String,
    pub project_type: String,
    pub country: String,
}

} // verus!
