use vstd::prelude::*;
use std::collections::HashMap;
use crate::error::ErrorCode;

verus! {

broadcast use vstd::std_specs::hash::group_hash_axioms;

/// Balance of `id` in a balance map; an account that was never funded holds
/// zero.
pub open spec fn bal(balances: Map<u64, u64>, id: u64) -> u64 {
    if balances.contains_key(id) {
        balances[id]
    } else {
        0
    }
}

/// The outcome of one scalar-balance transfer: the balance map afterwards and
/// the reported result.
///
/// A transfer fails with `InsufficientFunds` when the sender cannot cover the
/// amount, and with `TransferFailed` when the receiver's balance cannot take
/// it; a failed transfer moves nothing. A transfer to oneself moves nothing
/// either, but still demands that the sender cover the amount.
pub open spec fn spec_transfer(balances: Map<u64, u64>, from: u64, to: u64, amount: u64) -> (Map<
    u64,
    u64,
>, Result<(), ErrorCode>) {
    if bal(balances, from) < amount {
        (balances, Err(ErrorCode::InsufficientFunds))
    } else if from == to {
        (balances, Ok(()))
    } else if bal(balances, to) + amount > u64::MAX {
        (balances, Err(ErrorCode::TransferFailed))
    } else {
        (
            balances.insert(from, (bal(balances, from) - amount) as u64).insert(
                to,
                (bal(balances, to) + amount) as u64,
            ),
            Ok(()),
        )
    }
}

/// The payment collaborator: a ledger of scalar balances keyed by identity,
/// moving an amount between two identities atomically.
///
/// Its view is the map of funded accounts; `bal` reads it with absent
/// accounts holding zero.
pub struct PaymentLedger {
    balances: HashMap<u64, u64>,
}

impl View for PaymentLedger {
    type V = Map<u64, u64>;

    closed spec fn view(&self) -> Map<u64, u64> {
        self.balances@
    }
}

impl PaymentLedger {
    /// An empty ledger: every account holds zero.
    pub fn new() -> (ledger: PaymentLedger)
        ensures
            ledger@ == Map::<u64, u64>::empty(),
    {
        PaymentLedger { balances: HashMap::new() }
    }

    /// Adds `amount` to the balance of `id`.
    pub fn deposit(&mut self, id: u64, amount: u64)
        requires
            bal(old(self)@, id) + amount <= u64::MAX,
        ensures
            final(self)@ == old(self)@.insert(id, (bal(old(self)@, id) + amount) as u64),
    {
        let held = self.balance_of(id);
        self.balances.insert(id, held + amount);
    }

    /// The balance held by `id`.
    pub fn balance_of(&self, id: u64) -> (held: u64)
        ensures
            held == bal(self@, id),
    {
        match self.balances.get(&id) {
            Some(held) => *held,
            None => 0,
        }
    }

    /// Moves `amount` from `from` to `to`, atomically: on any failure no
    /// balance changes, and the result says why.
    pub fn transfer(&mut self, from: u64, to: u64, amount: u64) -> (result: Result<(), ErrorCode>)
        ensures
            ({
                let (moved, outcome) = spec_transfer(old(self)@, from, to, amount);
                final(self)@ == moved && result == outcome
            }),
    {
        let sender_held = self.balance_of(from);
        if sender_held < amount {
            return Err(ErrorCode::InsufficientFunds);
        }
        if from == to {
            return Ok(());
        }
        let receiver_held = self.balance_of(to);
        if receiver_held > u64::MAX - amount {
            return Err(ErrorCode::TransferFailed);
        }
        self.balances.insert(from, sender_held - amount);
        self.balances.insert(to, receiver_held + amount);
        Ok(())
    }
}

} // verus!
