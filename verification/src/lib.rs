//! A custodial donation ledger for a smart-contract host.
//!
//! The ledger has one persisted value, a lifecycle flag that starts as
//! `Active` and can only ever move to `Closed`. Anyone may give while the
//! ledger is active; the owner alone may close it, which sweeps the whole
//! balance to the owner in a single transfer.
//!
//! The host keeps the balance, knows the identities and moves the funds. Every
//! operation here takes what the host knows as plain values and says, in its
//! contract, what the host has to do next.

pub mod types;
pub mod address;
pub mod contract;
pub mod lifecycle;

pub use address::{AccountAddress, Address, ContractAddress};
pub use contract::{confirm_transfer, donation_closed, donation_give, donation_view, init};
pub use types::{Amount, DonationState, Error, Reject, Transfer};
