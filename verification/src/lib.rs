//! A peer-to-peer marketplace for unique, single-unit carbon-credit assets.
//!
//! Each asset is minted once, may be listed for sale at a fixed positive
//! price, bought atomically, cancelled back to its owner, or permanently
//! retired (burned) to credit a beneficiary with its environmental claim.
//!
//! The marketplace's durable state (`exchange`) is driven against two
//! collaborating ledgers: an asset custody ledger holding the single unit of
//! every live asset (`custody`) and a payment ledger of scalar balances
//! (`payment`). Every operation is all-or-nothing: a precondition violation
//! or a ledger failure leaves no partial state behind. The intended
//! behaviour of every operation is written once, as a transition function
//! over the ledgers' mathematical views (`transitions`), the executable
//! operations are proved to implement those transitions exactly, and the
//! marketplace-wide laws (at most one active listing, atomicity of a sale,
//! the ownership gate, price positivity, terminal retirement) are proved
//! over the transitions themselves (`laws`).

pub mod custody;
pub mod error;
pub mod events;
pub mod exchange;
pub mod laws;
pub mod payment;
pub mod state;
pub mod transitions;
