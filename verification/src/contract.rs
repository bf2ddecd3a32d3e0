use vstd::prelude::*;
use std::collections::HashMap;
use crate::account::{AccountId, Balance};
use crate::error::{Error, TransferError};
use crate::event::{SwapAccepted, SwapCancelled, SwapInitiated};
use crate::settlement::{Guard, Progress, Transfer};
use crate::snapshot::{
    ascending_ids, distinct_ids, lemma_swaps_of_entry, lemma_swaps_of_ids, lemma_swaps_of_push,
    swaps_of,
};
use crate::state::RegistryState;
use crate::swap::Swap;

verus! {

broadcast use vstd::std_specs::hash::group_hash_axioms;

/// The escrow registry: the live swaps, the id allocator and the reentrancy guard.
pub struct SwapContract {
    swaps: HashMap<u32, Swap>,
    next_swap_id: u32,
    guard: Guard,
}

impl View for SwapContract {
    type V = RegistryState;

    closed spec fn view(&self) -> RegistryState {
        RegistryState { swaps: self.swaps@, next_swap_id: self.next_swap_id, guard: self.guard }
    }
}

impl SwapContract {
    /// The registry's invariant, which every operation keeps.
    pub open spec fn wf(&self) -> bool {
        self@.wf()
    }

    /// An empty registry.
    pub fn new() -> (contract: SwapContract)
        ensures
            contract.wf(),
            contract@ == RegistryState::initial(),
    {
        SwapContract { swaps: HashMap::new(), next_swap_id: 0, guard: Guard::Idle }
    }

    /// The live swap stored under `swap_id`.
    pub fn get_swap(&self, swap_id: u32) -> (found: Option<Swap>)
        ensures
            found == self@.lookup(swap_id),
    {
        match self.swaps.get(&swap_id) {
            Some(swap) => Some(*swap),
            None => None,
        }
    }

    /// The id that the next proposal will get.
    pub fn next_swap_id(&self) -> (next: u32)
        ensures
            next == self@.next_swap_id,
    {
        self.next_swap_id
    }

    /// The reentrancy guard as it stands.
    pub fn guard(&self) -> (guard: Guard)
        ensures
            guard == self@.guard,
    {
        self.guard
    }

    /// Proposes a swap: `caller` locks `value` and asks `counterparty_asset` of
    /// `counterparty`.
    pub fn initiate_swap(
        &mut self,
        caller: AccountId,
        value: Balance,
        counterparty: AccountId,
        counterparty_asset: Balance,
    ) -> (outcome: Result<(u32, SwapInitiated), Error>)
        requires
            old(self).wf(),
        ensures
            final(self).wf(),
            outcome == old(self)@.initiate_outcome(caller, value, counterparty, counterparty_asset),
            final(self)@ == old(self)@.after_initiate(caller, value, counterparty, counterparty_asset),
    {
        if value == 0 {
            return Err(Error::InsufficientInitiatorBalance);
        }
        let swap_id = self.next_swap_id;
        if swap_id == u32::MAX {
            return Err(Error::SwapIdOverflow);
        }
        self.next_swap_id = swap_id + 1;
        self.swaps.insert(
            swap_id,
            Swap { initiator: caller, counterparty, initiator_asset: value, counterparty_asset },
        );
        Ok(
            (
                swap_id,
                SwapInitiated {
                    swap_id,
                    initiator: caller,
                    counterparty,
                    initiator_asset: value,
                    counterparty_asset,
                },
            ),
        )
    }

    /// Enters an acceptance of `swap_id` by `caller`, who attached `value`. The
    /// guard is taken first and released again on every refusal. On success it stays
    /// held and the transfer returned is owed; the host carries it out and reports
    /// with `transfer_finished`.
    pub fn accept_swap(&mut self, swap_id: u32, caller: AccountId, value: Balance) -> (outcome: Result<
        Transfer,
        Error,
    >)
        requires
            old(self).wf(),
        ensures
            final(self).wf(),
            outcome == old(self)@.accept_outcome(swap_id, caller, value),
            final(self)@ == old(self)@.after_accept(swap_id, caller, value),
    {
        self.enter_reentrancy_guard(Guard::PayingInitiator { swap_id })?;
        let swap = match self.swaps.get(&swap_id) {
            Some(swap) => *swap,
            None => {
                self.exit_reentrancy_guard();
                return Err(Error::SwapNotFound);
            },
        };
        if caller != swap.counterparty {
            self.exit_reentrancy_guard();
            return Err(Error::NotAuthorized);
        }
        if value != swap.counterparty_asset {
            self.exit_reentrancy_guard();
            return Err(Error::InsufficientCounterpartyBalance);
        }
        Ok(Transfer { to: swap.initiator, amount: value })
    }

    /// Enters a cancellation of `swap_id` by `caller`. The guard is taken first and
    /// released again on every refusal. On success it stays held and the refund
    /// returned is owed; the host carries it out and reports with
    /// `transfer_finished`.
    pub fn cancel_swap(&mut self, swap_id: u32, caller: AccountId) -> (outcome: Result<Transfer, Error>)
        requires
            old(self).wf(),
        ensures
            final(self).wf(),
            outcome == old(self)@.cancel_outcome(swap_id, caller),
            final(self)@ == old(self)@.after_cancel(swap_id, caller),
    {
        self.enter_reentrancy_guard(Guard::Refunding { swap_id })?;
        let swap = match self.swaps.get(&swap_id) {
            Some(swap) => *swap,
            None => {
                self.exit_reentrancy_guard();
                return Err(Error::SwapNotFound);
            },
        };
        if caller != swap.initiator {
            self.exit_reentrancy_guard();
            return Err(Error::NotAuthorized);
        }
        Ok(Transfer { to: swap.initiator, amount: swap.initiator_asset })
    }

    /// Takes the host's report on the transfer that the operation in progress asked
    /// for, and says how the operation goes on. Returns `None`, and changes nothing,
    /// when no operation is in progress.
    pub fn transfer_finished(&mut self, report: Result<(), TransferError>) -> (progress: Option<
        Progress,
    >)
        requires
            old(self).wf(),
        ensures
            final(self).wf(),
            progress == old(self)@.transfer_outcome(report),
            final(self)@ == old(self)@.after_transfer(report),
    {
        let failed = Progress::Failed(Error::InsufficientCounterpartyBalance);
        let progress = match self.guard {
            Guard::Idle => {
                return None;
            },
            Guard::PayingInitiator { swap_id } => {
                if report.is_ok() {
                    let swap = match self.swaps.get(&swap_id) {
                        Some(swap) => *swap,
                        None => unreached(),
                    };
                    self.guard = Guard::PayingCounterparty { swap_id };
                    return Some(
                        Progress::Transfer(
                            Transfer { to: swap.counterparty, amount: swap.initiator_asset },
                        ),
                    );
                }
                failed
            },
            Guard::PayingCounterparty { swap_id } => {
                if report.is_ok() {
                    self.swaps.remove(&swap_id);
                    Progress::Accepted(SwapAccepted { swap_id })
                } else {
                    failed
                }
            },
            Guard::Refunding { swap_id } => {
                if report.is_ok() {
                    self.swaps.remove(&swap_id);
                    Progress::Cancelled(SwapCancelled { swap_id })
                } else {
                    failed
                }
            },
        };
        self.exit_reentrancy_guard();
        Some(progress)
    }

    /// The live swaps with their ids, in rising order of id. Takes time in
    /// proportion to the number of ids handed out so far.
    pub fn live_swaps(&self) -> (entries: Vec<(u32, Swap)>)
        requires
            self.wf(),
        ensures
            ascending_ids(entries@),
            swaps_of(entries@) == self@.swaps,
    {
        let mut entries: Vec<(u32, Swap)> = Vec::new();
        let mut id: u32 = 0;
        while id < self.next_swap_id
            invariant
                self.wf(),
                id <= self.next_swap_id,
                ascending_ids(entries@),
                forall|i: int| 0 <= i < entries@.len() ==> (#[trigger] entries@[i]).0 < id,
                forall|k: u32|
                    swaps_of(entries@).contains_key(k) <==> k < id && self.swaps@.contains_key(k),
                forall|k: u32|
                    swaps_of(entries@).contains_key(k) ==> swaps_of(entries@)[k] == self.swaps@[k],
            decreases self.next_swap_id - id,
        {
            if let Some(swap) = self.swaps.get(&id) {
                proof {
                    lemma_swaps_of_push(entries@, id, *swap);
                }
                entries.push((id, *swap));
            }
            id += 1;
        }
        assert(swaps_of(entries@) =~= self.swaps@);
        entries
    }

    /// Rebuilds a registry from what `live_swaps`, `next_swap_id` and `guard` gave
    /// of it. Returns `None` when an id occurs twice or the parts break the
    /// registry's invariant.
    pub fn restore(entries: Vec<(u32, Swap)>, next_swap_id: u32, guard: Guard) -> (restored: Option<
        SwapContract,
    >)
        ensures
            match restored {
                Some(contract) => {
                    &&& contract.wf()
                    &&& distinct_ids(entries@)
                    &&& contract@ == RegistryState {
                        swaps: swaps_of(entries@),
                        next_swap_id,
                        guard,
                    }
                },
                None => !(distinct_ids(entries@) && (RegistryState {
                    swaps: swaps_of(entries@),
                    next_swap_id,
                    guard,
                }).wf()),
            },
    {
        let mut swaps: HashMap<u32, Swap> = HashMap::new();
        let mut i: usize = 0;
        while i < entries.len()
            invariant
                i <= entries@.len(),
                swaps@ == swaps_of(entries@.take(i as int)),
                distinct_ids(entries@.take(i as int)),
                forall|j: int|
                    0 <= j < i ==> (#[trigger] entries@[j]).0 < next_swap_id
                        && entries@[j].1.initiator_asset > 0,
            decreases entries@.len() - i,
        {
            let (id, swap) = entries[i];
            let ghost seen = entries@.take(i as int);
            proof {
                lemma_swaps_of_ids(seen, id);
                lemma_swaps_of_ids(entries@, id);
                assert(entries@[i as int].0 == id);
                assert(entries@.take(i + 1).drop_last() =~= seen);
            }
            if swaps.contains_key(&id) {
                proof {
                    let j = choose|j: int| 0 <= j < seen.len() && (#[trigger] seen[j]).0 == id;
                    assert(entries@[j].0 == entries@[i as int].0);
                }
                return None;
            }
            if id >= next_swap_id {
                return None;
            }
            if swap.initiator_asset == 0 {
                proof {
                    if distinct_ids(entries@) {
                        lemma_swaps_of_entry(entries@, i as int);
                    }
                }
                return None;
            }
            swaps.insert(id, swap);
            proof {
                let grown = entries@.take(i + 1);
                assert forall|a: int, b: int| 0 <= a < b < grown.len() implies (#[trigger] grown[a]).0
                    != (#[trigger] grown[b]).0 by {
                    if b < i {
                        assert(seen[a].0 != seen[b].0);
                    } else {
                        assert(seen[a].0 != id);
                    }
                }
            }
            i += 1;
        }
        proof {
            assert(entries@.take(i as int) =~= entries@);
            assert forall|k: u32| #[trigger] swaps@.contains_key(k) implies k < next_swap_id
                && swaps@[k].initiator_asset > 0 by {
                lemma_swaps_of_ids(entries@, k);
                let j = choose|j: int| 0 <= j < entries@.len() && (#[trigger] entries@[j]).0 == k;
                lemma_swaps_of_entry(entries@, j);
            }
        }
        let pending_is_live = match guard {
            Guard::Idle => true,
            Guard::PayingInitiator { swap_id } => swaps.contains_key(&swap_id),
            Guard::PayingCounterparty { swap_id } => swaps.contains_key(&swap_id),
            Guard::Refunding { swap_id } => swaps.contains_key(&swap_id),
        };
        if pending_is_live {
            Some(SwapContract { swaps, next_swap_id, guard })
        } else {
            None
        }
    }

    /// Takes the guard for the operation that `held` stands for, or refuses with
    /// `Reentrancy`, and changes nothing, while a guarded operation is in progress.
    /// Either way the guard is held afterwards.
    fn enter_reentrancy_guard(&mut self, held: Guard) -> (entry: Result<(), Error>)
        requires
            !(held is Idle),
        ensures
            old(self)@.busy() ==> entry == Err::<(), Error>(Error::Reentrancy) && final(self)@ == old(
                self,
            )@,
            !old(self)@.busy() ==> entry == Ok::<(), Error>(()) && final(self)@ == (RegistryState {
                guard: held,
                ..old(self)@
            }),
            final(self)@.busy(),
    {
        match self.guard {
            Guard::Idle => {
                self.guard = held;
                Ok(())
            },
            _ => Err(Error::Reentrancy),
        }
    }

    /// Releases the guard; the swaps and the next id stay as they are.
    fn exit_reentrancy_guard(&mut self)
        ensures
            final(self)@ == (RegistryState { guard: Guard::Idle, ..old(self)@ }),
    {
        self.guard = Guard::Idle;
    }
}

impl Default for SwapContract {
    /// An empty registry.
    fn default() -> (contract: SwapContract)
        ensures
            contract.wf(),
            contract@ == RegistryState::initial(),
    {
        SwapContract::new()
    }
}

} // verus!
