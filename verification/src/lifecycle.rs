//! The lifecycle of an instance over any sequence of calls.

use vstd::prelude::*;
use crate::address::{AccountAddress, Address};
use crate::contract::{close_result, state_after_close, view_result};
use crate::types::{Amount, DonationState, Error, Reject, Transfer};

verus! {

/// One call that the host lets through to an instance. A call that the host
/// rolls back has not happened and is not part of any sequence.
pub enum Call {
    /// Anyone gives `amount`.
    Give { amount: Amount },
    /// `sender` asks to close while the host holds `balance`.
    Close { sender: Address, balance: Amount },
    /// Anyone looks at the instance.
    View,
}

/// The flag after one call.
pub open spec fn state_after(state: DonationState, owner: AccountAddress, call: Call)
    -> DonationState {
    match call {
        Call::Give { .. } => state,
        Call::Close { sender, .. } => state_after_close(state, sender, owner),
        Call::View => state,
    }
}

/// The flag after a sequence of calls, first call first.
pub open spec fn state_after_all(state: DonationState, owner: AccountAddress, calls: Seq<Call>)
    -> DonationState
    decreases calls.len(),
{
    if calls.len() == 0 {
        state
    } else {
        state_after(state_after_all(state, owner, calls.drop_last()), owner, calls.last())
    }
}

/// The transfers that one call asks of the host: the one that a successful
/// close hands out, and none for anything else.
pub open spec fn transfers_of(state: DonationState, owner: AccountAddress, call: Call) -> Seq<
    Transfer,
> {
    match call {
        Call::Close { sender, balance } => match close_result(state, sender, owner, balance) {
            Ok(transfer) => seq![transfer],
            Err(_) => Seq::empty(),
        },
        _ => Seq::empty(),
    }
}

/// The transfers asked of the host over a sequence of calls, in order.
pub open spec fn transfers_of_all(state: DonationState, owner: AccountAddress, calls: Seq<Call>)
    -> Seq<Transfer>
    decreases calls.len(),
{
    if calls.len() == 0 {
        Seq::empty()
    } else {
        transfers_of_all(state, owner, calls.drop_last()) + transfers_of(
            state_after_all(state, owner, calls.drop_last()),
            owner,
            calls.last(),
        )
    }
}

/// No single call reopens a closed donation.
pub proof fn closed_survives_call(owner: AccountAddress, call: Call)
    ensures
        state_after(DonationState::Closed, owner, call) == DonationState::Closed,
{
}

/// A closed donation is closed after every sequence of calls.
pub proof fn closed_is_permanent(owner: AccountAddress, calls: Seq<Call>)
    ensures
        state_after_all(DonationState::Closed, owner, calls) == DonationState::Closed,
    decreases calls.len(),
{
    if calls.len() > 0 {
        closed_is_permanent(owner, calls.drop_last());
    }
}

/// Running `first` and then `then` is running the two one after the other.
pub proof fn state_after_all_concat(
    state: DonationState,
    owner: AccountAddress,
    first: Seq<Call>,
    then: Seq<Call>,
)
    ensures
        state_after_all(state, owner, first + then) == state_after_all(
            state_after_all(state, owner, first),
            owner,
            then,
        ),
    decreases then.len(),
{
    if then.len() == 0 {
        assert(first + then =~= first);
    } else {
        assert((first + then).drop_last() =~= first + then.drop_last());
        assert((first + then).last() == then.last());
        state_after_all_concat(state, owner, first, then.drop_last());
    }
}

/// Once a look at the instance has shown it closed, after the calls
/// `before`, every later look shows it closed too, whatever calls `after`
/// came in between and whatever the balances are: nothing reopens a donation.
pub proof fn closed_once_closed_forever(
    state: DonationState,
    owner: AccountAddress,
    before: Seq<Call>,
    after: Seq<Call>,
    balance_before: Amount,
    balance_after: Amount,
)
    requires
        view_result(state_after_all(state, owner, before), balance_before) matches Ok(seen)
            && seen.0 == DonationState::Closed,
    ensures
        view_result(state_after_all(state, owner, before + after), balance_after) == Ok::<
            (DonationState, Amount),
            Reject,
        >((DonationState::Closed, balance_after)),
{
    state_after_all_concat(state, owner, before, after);
    closed_is_permanent(owner, after);
}

/// The flag only ever moves from active to closed: over any sequence of
/// calls it either stays what it was or ends closed.
pub proof fn state_moves_forward_only(
    state: DonationState,
    owner: AccountAddress,
    calls: Seq<Call>,
)
    ensures
        state_after_all(state, owner, calls) == state || state_after_all(state, owner, calls)
            == DonationState::Closed,
    decreases calls.len(),
{
    if calls.len() > 0 {
        state_moves_forward_only(state, owner, calls.drop_last());
    }
}

/// A close that succeeded is never followed by another: whoever asks next,
/// the owner is told that the donation is already closed and anyone else that
/// they are not the owner.
pub proof fn second_close_fails(
    state: DonationState,
    owner: AccountAddress,
    first: Address,
    first_balance: Amount,
    second: Address,
    second_balance: Amount,
)
    requires
        close_result(state, first, owner, first_balance) is Ok,
    ensures
        close_result(state_after_close(state, first, owner), second, owner, second_balance) == (
        if second.names_account(owner) {
            Err::<Transfer, Error>(Error::AlreadyClosed)
        } else {
            Err::<Transfer, Error>(Error::NotOwner)
        }),
{
}

/// Over any sequence of calls the host is asked for at most one transfer. If
/// it is asked for one, the donation was active at the start and is closed at
/// the end, and the transfer goes to the owner. A donation that starts closed
/// asks for none.
pub proof fn at_most_one_transfer(state: DonationState, owner: AccountAddress, calls: Seq<Call>)
    ensures
        transfers_of_all(state, owner, calls).len() <= 1,
        transfers_of_all(state, owner, calls).len() == 1 ==> {
            &&& state == DonationState::Active
            &&& state_after_all(state, owner, calls) == DonationState::Closed
            &&& transfers_of_all(state, owner, calls)[0].to == owner
        },
        state == DonationState::Closed ==> transfers_of_all(state, owner, calls).len() == 0,
        state_after_all(state, owner, calls) == DonationState::Active ==> transfers_of_all(
            state,
            owner,
            calls,
        ).len() == 0,
    decreases calls.len(),
{
    if calls.len() > 0 {
        at_most_one_transfer(state, owner, calls.drop_last());
        state_moves_forward_only(state, owner, calls.drop_last());
    }
}

} // verus!
