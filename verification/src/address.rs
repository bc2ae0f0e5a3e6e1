//! Identities: accounts, contracts, and the test whether a sender is a given
//! account.

use vstd::prelude::*;

verus! {

/// The address of an account, as raw bytes.
#[derive(Debug, PartialEq, Eq, Clone, Copy)]
pub struct AccountAddress(pub [u8; 32]);

/// The address of a contract instance.
#[derive(Debug, PartialEq, Eq, Structural, Clone, Copy)]
pub struct ContractAddress {
    pub index: u64,
    pub subindex: u64,
}

/// Who sent a call: an account or a contract.
#[derive(Debug, PartialEq, Eq, Clone, Copy)]
pub enum Address {
    Account(AccountAddress),
    Contract(ContractAddress),
}

impl View for AccountAddress {
    type V = Seq<u8>;

    /// The bytes of the address, in order.
    open spec fn view(&self) -> Seq<u8> {
        self.0@
    }
}

impl Address {
    /// Whether this address is the account `account`: it is an account
    /// address and its bytes are those of `account`. A contract address is
    /// never an account.
    pub open spec fn names_account(self, account: AccountAddress) -> bool {
        self matches Address::Account(a) && a@ == account@
    }
}

/// Asks `concordium_std::Address::matches_account` whether `sender` is the
/// account `account`.
///
/// Trusted: both values are rebuilt field for field as the host library's
/// types. The contract claims what that method's source does: it answers
/// `true` exactly for an account address that equals `account` byte for byte,
/// and `false` for every contract address.
#[verifier::external_body]
pub(crate) fn matches_account(sender: &Address, account: &AccountAddress) -> (r: bool)
    ensures
        r == sender.names_account(*account),
{
    let theirs = match sender {
        Address::Account(a) => concordium_std::Address::Account(concordium_std::AccountAddress(a.0)),
        Address::Contract(c) => concordium_std::Address::Contract(concordium_std::ContractAddress {
            index: c.index,
            subindex: c.subindex,
        }),
    };
    theirs.matches_account(&concordium_std::AccountAddress(account.0))
}

} // verus!
