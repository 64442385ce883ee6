use vstd::prelude::*;
use std::collections::HashMap;

verus! {

broadcast use vstd::std_specs::hash::group_hash_axioms;

/// The single unit of one live asset: who holds it and whether it is frozen.
///
/// A frozen unit is locked in place for the lifetime of its listing: only
/// the unlock that closes the listing can make it movable again.
#[derive(Clone, Copy, Debug, PartialEq, Eq, Structural)]
pub struct AssetUnit {
    /// Identity currently holding the unit.
    pub holder: u64,
    /// Whether the unit is locked (frozen) in the holder's hands.
    pub frozen: bool,
}

/// `who` holds the single unit of `asset_id` in `units`.
pub open spec fn unit_held(units: Map<u64, AssetUnit>, asset_id: u64, who: u64) -> bool {
    units.contains_key(asset_id) && units[asset_id].holder == who
}

/// `who` holds the single unit of `asset_id`, and the unit is not frozen.
pub open spec fn unit_free(units: Map<u64, AssetUnit>, asset_id: u64, who: u64) -> bool {
    unit_held(units, asset_id, who) && !units[asset_id].frozen
}

/// The asset-custody collaborator: a ledger holding, for every live asset,
/// its single unit. Exposes unit transfer, freeze/unfreeze and burn, each
/// reporting success or failure and moving nothing on failure.
pub struct AssetCustody {
    units: HashMap<u64, AssetUnit>,
}

impl View for AssetCustody {
    type V = Map<u64, AssetUnit>;

    closed spec fn view(&self) -> Map<u64, AssetUnit> {
        self.units@
    }
}

impl AssetCustody {
    /// An empty custody ledger: no asset exists yet.
    pub fn new() -> (custody: AssetCustody)
        ensures
            custody@ == Map::<u64, AssetUnit>::empty(),
    {
        AssetCustody { units: HashMap::new() }
    }

    /// Creates the single unit of a brand-new asset in `holder`'s hands.
    /// Fails if a unit of `asset_id` already exists: an asset is minted once.
    pub fn mint_unit(&mut self, asset_id: u64, holder: u64) -> (ok: bool)
        ensures
            ok == !old(self)@.contains_key(asset_id),
            ok ==> final(self)@ == old(self)@.insert(
                asset_id,
                (AssetUnit { holder, frozen: false }),
            ),
            !ok ==> final(self)@ == old(self)@,
    {
        if self.units.contains_key(&asset_id) {
            false
        } else {
            self.units.insert(asset_id, AssetUnit { holder, frozen: false });
            true
        }
    }

    /// Moves the unit of `asset_id` from `from` to `to`. Fails, moving
    /// nothing, unless `from` holds the unit and it is not frozen.
    pub fn transfer(&mut self, asset_id: u64, from: u64, to: u64) -> (ok: bool)
        ensures
            ok == unit_free(old(self)@, asset_id, from),
            ok ==> final(self)@ == old(self)@.insert(
                asset_id,
                (AssetUnit { holder: to, frozen: false }),
            ),
            !ok ==> final(self)@ == old(self)@,
    {
        let looked_up = match self.units.get(&asset_id) {
            Some(unit) => Some(*unit),
            None => None,
        };
        match looked_up {
            Some(unit) => {
                if unit.holder == from && !unit.frozen {
                    self.units.insert(asset_id, AssetUnit { holder: to, frozen: false });
                    true
                } else {
                    false
                }
            },
            None => false,
        }
    }

    /// Locks the unit of `asset_id` in `holder`'s hands. Fails unless
    /// `holder` holds the unit and it is not already frozen.
    pub fn freeze(&mut self, asset_id: u64, holder: u64) -> (ok: bool)
        ensures
            ok == unit_free(old(self)@, asset_id, holder),
            ok ==> final(self)@ == old(self)@.insert(
                asset_id,
                (AssetUnit { holder, frozen: true }),
            ),
            !ok ==> final(self)@ == old(self)@,
    {
        let looked_up = match self.units.get(&asset_id) {
            Some(unit) => Some(*unit),
            None => None,
        };
        match looked_up {
            Some(unit) => {
                if unit.holder == holder && !unit.frozen {
                    self.units.insert(asset_id, AssetUnit { holder, frozen: true });
                    true
                } else {
                    false
                }
            },
            None => false,
        }
    }

    /// Unlocks the unit of `asset_id`. Fails unless `holder` holds the unit
    /// and it is frozen.
    pub fn unfreeze(&mut self, asset_id: u64, holder: u64) -> (ok: bool)
        ensures
            ok == (unit_held(old(self)@, asset_id, holder) && old(self)@[asset_id].frozen),
            ok ==> final(self)@ == old(self)@.insert(
                asset_id,
                (AssetUnit { holder, frozen: false }),
            ),
            !ok ==> final(self)@ == old(self)@,
    {
        let looked_up = match self.units.get(&asset_id) {
            Some(unit) => Some(*unit),
            None => None,
        };
        match looked_up {
            Some(unit) => {
                if unit.holder == holder && unit.frozen {
                    self.units.insert(asset_id, AssetUnit { holder, frozen: false });
                    true
                } else {
                    false
                }
            },
            None => false,
        }
    }

    /// Destroys the unit of `asset_id` for good. Fails, destroying nothing,
    /// unless `holder` holds the unit and it is not frozen.
    pub fn burn(&mut self, asset_id: u64, holder: u64) -> (ok: bool)
        ensures
            ok == unit_free(old(self)@, asset_id, holder),
            ok ==> final(self)@ == old(self)@.remove(asset_id),
            !ok ==> final(self)@ == old(self)@,
    {
        let looked_up = match self.units.get(&asset_id) {
            Some(unit) => Some(*unit),
            None => None,
        };
        match looked_up {
            Some(unit) => {
                if unit.holder == holder && !unit.frozen {
                    self.units.remove(&asset_id);
                    true
                } else {
                    false
                }
            },
            None => false,
        }
    }

    /// Whether a unit of `asset_id` exists.
    pub fn has_unit(&self, asset_id: u64) -> (present: bool)
        ensures
            present == self@.contains_key(asset_id),
    {
        self.units.contains_key(&asset_id)
    }

    /// The identity holding the unit of `asset_id`, if the asset is live.
    pub fn holder_of(&self, asset_id: u64) -> (holder: Option<u64>)
        ensures
            match holder {
                Some(who) => self@.contains_key(asset_id) && self@[asset_id].holder == who,
                None => !self@.contains_key(asset_id),
            },
    {
        match self.units.get(&asset_id) {
            Some(unit) => Some(unit.holder),
            None => None,
        }
    }

    /// Whether the unit of `asset_id` exists and is frozen.
    pub fn is_frozen(&self, asset_id: u64) -> (frozen: bool)
        ensures
            frozen == (self@.contains_key(asset_id) && self@[asset_id].frozen),
    {
        match self.units.get(&asset_id) {
            Some(unit) => unit.frozen,
            None => false,
        }
    }
}

} // verus!
