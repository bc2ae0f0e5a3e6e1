//! The four operations of the ledger.

use vstd::prelude::*;
use crate::address::{matches_account, AccountAddress, Address};
use crate::types::{Amount, DonationState, Error, Reject, Transfer};

verus! {

/// What giving funds answers in `state`: accepted while the donation is
/// active, rejected once it is closed, whatever the amount.
pub open spec fn give_result(state: DonationState) -> Result<(), Reject> {
    if state == DonationState::Active {
        Ok(())
    } else {
        Err(Reject {})
    }
}

/// What closing answers. The sender is checked first, the flag second; on
/// success the answer is the one transfer the host must make: the whole
/// balance, to the owner.
pub open spec fn close_result(
    state: DonationState,
    sender: Address,
    owner: AccountAddress,
    balance: Amount,
) -> Result<Transfer, Error> {
    if !sender.names_account(owner) {
        Err(Error::NotOwner)
    } else if state != DonationState::Active {
        Err(Error::AlreadyClosed)
    } else {
        Ok(Transfer { to: owner, amount: balance })
    }
}

/// The flag after a call to close: closed if the owner called, untouched if
/// anyone else did.
pub open spec fn state_after_close(
    state: DonationState,
    sender: Address,
    owner: AccountAddress,
) -> DonationState {
    if sender.names_account(owner) {
        DonationState::Closed
    } else {
        state
    }
}

/// What the close operation answers once the host has reported on the
/// transfer.
pub open spec fn transfer_result(transferred: bool) -> Result<(), Error> {
    if transferred {
        Ok(())
    } else {
        Err(Error::TransferError)
    }
}

/// What looking at the instance answers: the flag and the balance, exactly as
/// they are held.
pub open spec fn view_result(state: DonationState, balance: Amount) -> Result<
    (DonationState, Amount),
    Reject,
> {
    Ok((state, balance))
}

/// Creates the persisted state of a new instance. It cannot fail.
pub fn init() -> (r: Result<DonationState, Reject>)
    ensures
        r == Ok::<DonationState, Reject>(DonationState::Active),
{
    Ok(DonationState::Active)
}

/// Accepts any amount, from anyone, while the donation is active.
///
/// The host adds the amount to the balance; a rejection makes it roll the
/// call back. The flag is only read.
pub fn donation_give(state: &DonationState, _amount: Amount) -> (r: Result<(), Reject>)
    ensures
        r == give_result(*state),
        r is Ok <==> *state == DonationState::Active,
{
    match state {
        DonationState::Active => Ok(()),
        DonationState::Closed => Err(Reject {}),
    }
}

/// Closes the donation on behalf of `sender` and says what to transfer.
///
/// `owner` is the fixed owner of the instance and `balance` the balance the
/// host holds for it at the time of the call. The flag is set to closed
/// before the transfer is handed out, so the host never sees an active
/// donation while it moves the funds. A call that fails leaves the flag as it
/// was. The host reports the outcome of the transfer to [`confirm_transfer`].
pub fn donation_closed(
    state: &mut DonationState,
    sender: &Address,
    owner: &AccountAddress,
    balance: Amount,
) -> (r: Result<Transfer, Error>)
    ensures
        r == close_result(*old(state), *sender, *owner, balance),
        *final(state) == state_after_close(*old(state), *sender, *owner),
        r is Ok ==> *old(state) == DonationState::Active && *final(state)
            == DonationState::Closed,
        r is Err ==> *final(state) == *old(state),
{
    if !matches_account(sender, owner) {
        return Err(Error::NotOwner);
    }
    match *state {
        DonationState::Closed => Err(Error::AlreadyClosed),
        DonationState::Active => {
            *state = DonationState::Closed;
            Ok(Transfer { to: *owner, amount: balance })
        },
    }
}

/// Ends a close: success if the host moved the funds, `TransferError` if it
/// reports that it could not.
pub fn confirm_transfer(transferred: bool) -> (r: Result<(), Error>)
    ensures
        r == transfer_result(transferred),
{
    if transferred {
        Ok(())
    } else {
        Err(Error::TransferError)
    }
}

/// Reports the flag and the balance as they are. It cannot fail and changes
/// nothing.
pub fn donation_view(state: &DonationState, balance: Amount) -> (r: Result<
    (DonationState, Amount),
    Reject,
>)
    ensures
        r == view_result(*state, balance),
{
    Ok((*state, balance))
}

} // verus!
