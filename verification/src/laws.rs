use vstd::prelude::*;
use crate::account::{AccountId, Balance};
use crate::error::{Error, TransferError};
use crate::event::{SwapAccepted, SwapCancelled, SwapInitiated};
use crate::history::{proposals_made, replay, Call};
use crate::settlement::{Progress, Transfer};
use crate::snapshot::{ascending_ids, lemma_swaps_of_entry, lemma_swaps_of_ids, swaps_of};
use crate::state::RegistryState;
use crate::swap::Swap;

verus! {

/// Every call keeps the registry's invariant.
pub proof fn law_calls_keep_invariant(state: RegistryState, call: Call)
    requires
        state.wf(),
    ensures
        state.apply(call).wf(),
{
}

/// A proposal with a positive value, made while ids are left, gets the next id,
/// which no live swap carries; the registry then holds under that id exactly what
/// was submitted, the next id is one higher, and every other id is as it was.
pub proof fn law_proposal_is_stored_under_next_id(
    state: RegistryState,
    caller: AccountId,
    value: Balance,
    counterparty: AccountId,
    counterparty_asset: Balance,
)
    requires
        state.wf(),
        value > 0,
        state.next_swap_id < u32::MAX,
    ensures
        !state.swaps.contains_key(state.next_swap_id),
        state.initiate_outcome(caller, value, counterparty, counterparty_asset) == Ok::<
            (u32, SwapInitiated),
            Error,
        >(
            (
                state.next_swap_id,
                SwapInitiated {
                    swap_id: state.next_swap_id,
                    initiator: caller,
                    counterparty,
                    initiator_asset: value,
                    counterparty_asset,
                },
            ),
        ),
        state.after_initiate(caller, value, counterparty, counterparty_asset).lookup(
            state.next_swap_id,
        ) == Some(Swap { initiator: caller, counterparty, initiator_asset: value, counterparty_asset }),
        state.after_initiate(caller, value, counterparty, counterparty_asset).next_swap_id
            == state.next_swap_id + 1,
        state.after_initiate(caller, value, counterparty, counterparty_asset).guard == state.guard,
        forall|other: u32|
            other != state.next_swap_id ==> state.after_initiate(
                caller,
                value,
                counterparty,
                counterparty_asset,
            ).lookup(other) == state.lookup(other),
{
}

/// A history of calls on a new registry leads to a registry that satisfies the
/// invariant and whose next id is the number of proposals that succeeded: so the
/// id that a proposal gets is the count of the successful proposals before it.
pub proof fn law_next_id_counts_proposals(calls: Seq<Call>)
    ensures
        replay(calls).wf(),
        replay(calls).next_swap_id == proposals_made(calls),
    decreases calls.len(),
{
    if calls.len() > 0 {
        law_next_id_counts_proposals(calls.drop_last());
        law_calls_keep_invariant(replay(calls.drop_last()), calls.last());
    }
}

/// After any history of calls on a new registry, a proposal with a positive value
/// gets as its id the number of proposals that succeeded before it, as long as ids
/// are left, and a lookup under that id then shows what was submitted.
pub proof fn law_proposal_id_counts_earlier_proposals(
    calls: Seq<Call>,
    caller: AccountId,
    value: Balance,
    counterparty: AccountId,
    counterparty_asset: Balance,
)
    requires
        value > 0,
        proposals_made(calls) < u32::MAX,
    ensures
        ({
            let before = replay(calls);
            let after = before.after_initiate(caller, value, counterparty, counterparty_asset);
            &&& match before.initiate_outcome(caller, value, counterparty, counterparty_asset) {
                Ok((swap_id, _)) => swap_id == proposals_made(calls),
                Err(_) => false,
            }
            &&& before.lookup(proposals_made(calls) as u32) is None
            &&& after.lookup(proposals_made(calls) as u32) == Some(
                Swap { initiator: caller, counterparty, initiator_asset: value, counterparty_asset },
            )
        }),
{
    law_next_id_counts_proposals(calls);
    law_proposal_is_stored_under_next_id(
        replay(calls),
        caller,
        value,
        counterparty,
        counterparty_asset,
    );
}

/// A proposal without value is refused with `InsufficientInitiatorBalance`,
/// whatever else holds, and leaves the registry, its next id included, as it was.
pub proof fn law_empty_proposal_is_refused(
    state: RegistryState,
    caller: AccountId,
    counterparty: AccountId,
    counterparty_asset: Balance,
)
    ensures
        state.initiate_outcome(caller, 0, counterparty, counterparty_asset) == Err::<
            (u32, SwapInitiated),
            Error,
        >(Error::InsufficientInitiatorBalance),
        state.after_initiate(caller, 0, counterparty, counterparty_asset) == state,
{
}

/// An acceptance by the counterparty with exactly the value asked for, entered
/// while the guard is idle, pays the initiator what the counterparty attached, then
/// the counterparty what the initiator locked, and only then removes the swap,
/// announces it and releases the guard. The guard is held in between, and no other
/// swap is touched.
pub proof fn law_acceptance_pays_both_then_removes(state: RegistryState, swap_id: u32)
    requires
        state.wf(),
        !state.busy(),
        state.swaps.contains_key(swap_id),
    ensures
        ({
            let swap = state.swaps[swap_id];
            let entered = state.after_accept(swap_id, swap.counterparty, swap.counterparty_asset);
            let halfway = entered.after_transfer(Ok(()));
            let done = halfway.after_transfer(Ok(()));
            &&& state.accept_outcome(swap_id, swap.counterparty, swap.counterparty_asset) == Ok::<
                Transfer,
                Error,
            >(Transfer { to: swap.initiator, amount: swap.counterparty_asset })
            &&& entered.busy() && entered.swaps == state.swaps
            &&& entered.transfer_outcome(Ok(())) == Some(
                Progress::Transfer(Transfer { to: swap.counterparty, amount: swap.initiator_asset }),
            )
            &&& halfway.busy() && halfway.swaps == state.swaps
            &&& halfway.transfer_outcome(Ok(())) == Some(Progress::Accepted(SwapAccepted { swap_id }))
            &&& done == RegistryState { swaps: state.swaps.remove(swap_id), ..state }
        }),
{
}

/// A cancellation by the initiator, entered while the guard is idle, returns to the
/// initiator what was locked, and only then removes the swap, announces it and
/// releases the guard.
pub proof fn law_cancellation_refunds_then_removes(state: RegistryState, swap_id: u32)
    requires
        state.wf(),
        !state.busy(),
        state.swaps.contains_key(swap_id),
    ensures
        ({
            let swap = state.swaps[swap_id];
            let entered = state.after_cancel(swap_id, swap.initiator);
            let done = entered.after_transfer(Ok(()));
            &&& state.cancel_outcome(swap_id, swap.initiator) == Ok::<Transfer, Error>(
                Transfer { to: swap.initiator, amount: swap.initiator_asset },
            )
            &&& entered.busy() && entered.swaps == state.swaps
            &&& entered.transfer_outcome(Ok(())) == Some(
                Progress::Cancelled(SwapCancelled { swap_id }),
            )
            &&& done == RegistryState { swaps: state.swaps.remove(swap_id), ..state }
        }),
{
}

/// Once a swap has been accepted or cancelled, accepting or cancelling it again
/// fails with `SwapNotFound`, whoever calls and whatever is attached: right away,
/// and after any further calls, whenever the guard is idle.
pub proof fn law_resolved_swap_is_not_found(
    state: RegistryState,
    later: Seq<Call>,
    caller: AccountId,
    value: Balance,
)
    requires
        state.wf(),
        state.guard is PayingCounterparty || state.guard is Refunding,
    ensures
        ({
            let swap_id = state.guard.pending().unwrap();
            let done = state.after_transfer(Ok(()));
            let afterwards = done.apply_all(later);
            &&& !done.busy()
            &&& !afterwards.swaps.contains_key(swap_id)
            &&& !afterwards.busy() ==> {
                &&& afterwards.accept_outcome(swap_id, caller, value) == Err::<Transfer, Error>(
                    Error::SwapNotFound,
                )
                &&& afterwards.cancel_outcome(swap_id, caller) == Err::<Transfer, Error>(
                    Error::SwapNotFound,
                )
            }
        }),
{
    let swap_id = state.guard.pending().unwrap();
    let done = state.after_transfer(Ok(()));
    assert(state.swaps.contains_key(swap_id));
    law_calls_keep_invariant(state, Call::TransferFinished { report: Ok(()) });
    law_ids_are_never_reused(done, later, swap_id);
}

/// A swap is announced as accepted or cancelled at most once: after any calls on a
/// registry in which its id has been handed out and is no longer live, no operation
/// on it can be entered and no report on a transfer announces it.
pub proof fn law_swap_is_resolved_once(
    state: RegistryState,
    later: Seq<Call>,
    swap_id: u32,
    caller: AccountId,
    value: Balance,
    report: Result<(), TransferError>,
)
    requires
        state.wf(),
        swap_id < state.next_swap_id,
        !state.swaps.contains_key(swap_id),
    ensures
        ({
            let afterwards = state.apply_all(later);
            &&& afterwards.accept_outcome(swap_id, caller, value) is Err
            &&& afterwards.cancel_outcome(swap_id, caller) is Err
            &&& afterwards.transfer_outcome(report) != Some(
                Progress::Accepted(SwapAccepted { swap_id }),
            )
            &&& afterwards.transfer_outcome(report) != Some(
                Progress::Cancelled(SwapCancelled { swap_id }),
            )
        }),
{
    law_ids_are_never_reused(state, later, swap_id);
}

/// An id that has been handed out and is no longer live never becomes live again,
/// whatever is called; a swap that is live after some calls was live before them
/// and has not changed.
pub proof fn law_ids_are_never_reused(state: RegistryState, calls: Seq<Call>, swap_id: u32)
    requires
        state.wf(),
        swap_id < state.next_swap_id,
    ensures
        state.apply_all(calls).wf(),
        state.next_swap_id <= state.apply_all(calls).next_swap_id,
        state.apply_all(calls).swaps.contains_key(swap_id) ==> state.swaps.contains_key(swap_id)
            && state.apply_all(calls).swaps[swap_id] == state.swaps[swap_id],
    decreases calls.len(),
{
    if calls.len() > 0 {
        law_ids_are_never_reused(state, calls.drop_last(), swap_id);
        law_calls_keep_invariant(state.apply_all(calls.drop_last()), calls.last());
    }
}

/// An acceptance by anyone but the counterparty of a live swap fails with
/// `NotAuthorized` and leaves the registry as it was.
pub proof fn law_only_counterparty_accepts(
    state: RegistryState,
    swap_id: u32,
    caller: AccountId,
    value: Balance,
)
    requires
        state.wf(),
        !state.busy(),
        state.swaps.contains_key(swap_id),
        caller != state.swaps[swap_id].counterparty,
    ensures
        state.accept_outcome(swap_id, caller, value) == Err::<Transfer, Error>(Error::NotAuthorized),
        state.after_accept(swap_id, caller, value) == state,
{
}

/// An acceptance by the counterparty with any value but the one asked for fails
/// with `InsufficientCounterpartyBalance` and leaves the registry as it was.
pub proof fn law_acceptance_needs_exact_value(state: RegistryState, swap_id: u32, value: Balance)
    requires
        state.wf(),
        !state.busy(),
        state.swaps.contains_key(swap_id),
        value != state.swaps[swap_id].counterparty_asset,
    ensures
        state.accept_outcome(swap_id, state.swaps[swap_id].counterparty, value) == Err::<
            Transfer,
            Error,
        >(Error::InsufficientCounterpartyBalance),
        state.after_accept(swap_id, state.swaps[swap_id].counterparty, value) == state,
{
}

/// A cancellation by anyone but the initiator of a live swap fails with
/// `NotAuthorized` and leaves the registry as it was.
pub proof fn law_only_initiator_cancels(state: RegistryState, swap_id: u32, caller: AccountId)
    requires
        state.wf(),
        !state.busy(),
        state.swaps.contains_key(swap_id),
        caller != state.swaps[swap_id].initiator,
    ensures
        state.cancel_outcome(swap_id, caller) == Err::<Transfer, Error>(Error::NotAuthorized),
        state.after_cancel(swap_id, caller) == state,
{
}

/// While a guarded operation waits for a transfer, every acceptance and every
/// cancellation fails with `Reentrancy` and leaves the registry as it was.
pub proof fn law_guard_refuses_reentry(
    state: RegistryState,
    swap_id: u32,
    caller: AccountId,
    value: Balance,
)
    requires
        state.busy(),
    ensures
        state.accept_outcome(swap_id, caller, value) == Err::<Transfer, Error>(Error::Reentrancy),
        state.after_accept(swap_id, caller, value) == state,
        state.cancel_outcome(swap_id, caller) == Err::<Transfer, Error>(Error::Reentrancy),
        state.after_cancel(swap_id, caller) == state,
{
}

/// The guard is held exactly while a transfer is owed: entering an operation takes
/// it if and only if a transfer is returned, and a report keeps it if and only if
/// one more transfer is returned.
pub proof fn law_guard_is_held_while_transfer_is_owed(
    state: RegistryState,
    swap_id: u32,
    caller: AccountId,
    value: Balance,
    report: Result<(), TransferError>,
)
    requires
        state.wf(),
    ensures
        !state.busy() ==> (state.after_accept(swap_id, caller, value).busy()
            <==> state.accept_outcome(swap_id, caller, value) is Ok),
        !state.busy() ==> (state.after_cancel(swap_id, caller).busy() <==> state.cancel_outcome(
            swap_id,
            caller,
        ) is Ok),
        state.after_transfer(report).busy() <==> state.transfer_outcome(report) matches Some(
            Progress::Transfer(_),
        ),
{
}

/// A call that fails leaves the registry as it was before the call.
pub proof fn law_refusal_changes_nothing(
    state: RegistryState,
    swap_id: u32,
    caller: AccountId,
    value: Balance,
    counterparty: AccountId,
    counterparty_asset: Balance,
)
    ensures
        state.initiate_outcome(caller, value, counterparty, counterparty_asset) is Err
            ==> state.after_initiate(caller, value, counterparty, counterparty_asset) == state,
        state.accept_outcome(swap_id, caller, value) is Err ==> state.after_accept(
            swap_id,
            caller,
            value,
        ) == state,
        state.cancel_outcome(swap_id, caller) is Err ==> state.after_cancel(swap_id, caller)
            == state,
{
}

/// A transfer that fails abandons the operation with
/// `InsufficientCounterpartyBalance`, and the registry is again as it was before
/// the operation was entered: the swap is still live and the guard is idle.
pub proof fn law_failed_transfer_restores(
    state: RegistryState,
    swap_id: u32,
    caller: AccountId,
    value: Balance,
)
    requires
        state.wf(),
    ensures
        ({
            let entered = state.after_accept(swap_id, caller, value);
            let halfway = entered.after_transfer(Ok(()));
            state.accept_outcome(swap_id, caller, value) is Ok ==> {
                &&& entered.transfer_outcome(Err(TransferError)) == Some(
                    Progress::Failed(Error::InsufficientCounterpartyBalance),
                )
                &&& entered.after_transfer(Err(TransferError)) == state
                &&& halfway.transfer_outcome(Err(TransferError)) == Some(
                    Progress::Failed(Error::InsufficientCounterpartyBalance),
                )
                &&& halfway.after_transfer(Err(TransferError)) == state
            }
        }),
        ({
            let entered = state.after_cancel(swap_id, caller);
            state.cancel_outcome(swap_id, caller) is Ok ==> {
                &&& entered.transfer_outcome(Err(TransferError)) == Some(
                    Progress::Failed(Error::InsufficientCounterpartyBalance),
                )
                &&& entered.after_transfer(Err(TransferError)) == state
            }
        }),
{
}

/// A registry has one listing of its live swaps in rising order of id: two such
/// listings of the same swaps are the same.
pub proof fn law_listing_is_unique(first: Seq<(u32, Swap)>, second: Seq<(u32, Swap)>)
    requires
        ascending_ids(first),
        ascending_ids(second),
        swaps_of(first) == swaps_of(second),
    ensures
        first == second,
    decreases first.len(),
{
    if first.len() == 0 {
        if second.len() > 0 {
            lemma_swaps_of_ids(second, second[0].0);
            assert(swaps_of(second).contains_key(second[0].0));
        }
        assert(first =~= second);
    } else {
        let top = first.len() - 1;
        lemma_swaps_of_ids(second, first[top].0);
        lemma_swaps_of_ids(first, first[top].0);
        assert(second.len() > 0);
        let other_top = second.len() - 1;
        lemma_swaps_of_ids(first, second[other_top].0);
        lemma_swaps_of_ids(second, second[other_top].0);
        assert(first[top].0 == second[other_top].0);
        lemma_swaps_of_entry(first, top);
        lemma_swaps_of_entry(second, other_top);
        assert(first[top] == second[other_top]);
        lemma_front_of_listing(first);
        lemma_front_of_listing(second);
        law_listing_is_unique(first.drop_last(), second.drop_last());
        assert(first =~= first.drop_last().push(first[top]));
        assert(second =~= second.drop_last().push(second[other_top]));
    }
}

/// Without its last entry a rising listing is still rising, and describes the same
/// swaps but the one under the last id.
proof fn lemma_front_of_listing(entries: Seq<(u32, Swap)>)
    requires
        ascending_ids(entries),
        entries.len() > 0,
    ensures
        ascending_ids(entries.drop_last()),
        swaps_of(entries.drop_last()) == swaps_of(entries).remove(entries.last().0),
{
    let front = entries.drop_last();
    assert forall|i: int, j: int| 0 <= i < j < front.len() implies front[i].0 < front[j].0 by {
        assert(entries[i].0 < entries[j].0);
    }
    lemma_swaps_of_ids(front, entries.last().0);
    if swaps_of(front).contains_key(entries.last().0) {
        let i = choose|i: int| 0 <= i < front.len() && (#[trigger] front[i]).0 == entries.last().0;
        assert(entries[i].0 < entries[entries.len() - 1].0);
    }
    assert(swaps_of(front) =~= swaps_of(entries).remove(entries.last().0));
}

} // verus!
