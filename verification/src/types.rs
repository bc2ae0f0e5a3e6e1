//! The values that the ledger stores, returns and hands to its host.

use vstd::prelude::*;
use crate::address::AccountAddress;

verus! {

/// The lifecycle flag, the only value that the ledger persists.
#[derive(Debug, PartialEq, Eq, Structural, Clone, Copy)]
pub enum DonationState {
    /// Funds may be given; nothing has been swept yet.
    Active,
    /// Terminal: no further funds are taken and the balance has been swept.
    Closed,
}

/// Why closing the donation failed.
#[derive(Debug, PartialEq, Eq, Structural, Clone, Copy)]
pub enum Error {
    /// The sender of the call is not the owner.
    NotOwner,
    /// The donation was closed before this call.
    AlreadyClosed,
    /// The host reported that it could not move the funds.
    TransferError,
}

/// A rejection that carries no reason.
#[derive(Debug, PartialEq, Eq, Structural, Clone, Copy)]
pub struct Reject {}

/// An amount of funds, counted in the smallest unit the host knows.
#[derive(Debug, PartialEq, Eq, Structural, Clone, Copy)]
pub struct Amount {
    pub micro_ccd: u64,
}

/// A request to the host to move `amount` to the account `to`.
#[derive(Debug, PartialEq, Eq, Clone, Copy)]
pub struct Transfer {
    pub to: AccountAddress,
    pub amount: Amount,
}

} // verus!
