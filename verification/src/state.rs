use vstd::prelude::*;
use crate::account::{AccountId, Balance};
use crate::error::{Error, TransferError};
use crate::event::{SwapAccepted, SwapCancelled, SwapInitiated};
use crate::settlement::{Guard, Progress, Transfer};
use crate::swap::Swap;

verus! {

/// The registry as a mathematical value: the live swaps by id, the id that the next
/// proposal will get, and the reentrancy guard.
#[verifier::ext_equal]
pub struct RegistryState {
    pub swaps: Map<u32, Swap>,
    pub next_swap_id: u32,
    pub guard: Guard,
}

impl RegistryState {
    /// The registry as it is created: no swaps, first id 0, guard idle.
    pub open spec fn initial() -> RegistryState {
        RegistryState { swaps: Map::empty(), next_swap_id: 0, guard: Guard::Idle }
    }

    /// A guarded operation is waiting for a transfer to be reported.
    pub open spec fn busy(self) -> bool {
        !(self.guard is Idle)
    }

    /// The swap stored under `swap_id`, if it is live.
    pub open spec fn lookup(self, swap_id: u32) -> Option<Swap> {
        if self.swaps.contains_key(swap_id) {
            Some(self.swaps[swap_id])
        } else {
            None
        }
    }

    /// What every registry satisfies: live swaps carry ids that were handed out and
    /// hold a positive amount in custody, and an operation in progress is about a
    /// live swap.
    pub open spec fn wf(self) -> bool {
        &&& self.swaps.dom().finite()
        &&& forall|id: u32| #[trigger]
            self.swaps.contains_key(id) ==> id < self.next_swap_id && self.swaps[id].initiator_asset
                > 0
        &&& match self.guard.pending() {
            Some(id) => self.swaps.contains_key(id),
            None => true,
        }
    }

    /// What a proposal returns: the new id and the event to record, or the reason
    /// it is refused. An empty proposal is refused before the id range is looked at.
    pub open spec fn initiate_outcome(
        self,
        caller: AccountId,
        value: Balance,
        counterparty: AccountId,
        counterparty_asset: Balance,
    ) -> Result<(u32, SwapInitiated), Error> {
        if value == 0 {
            Err(Error::InsufficientInitiatorBalance)
        } else if self.next_swap_id == u32::MAX {
            Err(Error::SwapIdOverflow)
        } else {
            Ok(
                (
                    self.next_swap_id,
                    SwapInitiated {
                        swap_id: self.next_swap_id,
                        initiator: caller,
                        counterparty,
                        initiator_asset: value,
                        counterparty_asset,
                    },
                ),
            )
        }
    }

    /// The registry after a proposal: on success the swap is stored under the id
    /// returned and the next id is one higher; on refusal nothing changes. The guard
    /// plays no part.
    pub open spec fn after_initiate(
        self,
        caller: AccountId,
        value: Balance,
        counterparty: AccountId,
        counterparty_asset: Balance,
    ) -> RegistryState {
        if self.initiate_outcome(caller, value, counterparty, counterparty_asset) is Ok {
            RegistryState {
                swaps: self.swaps.insert(
                    self.next_swap_id,
                    Swap {
                        initiator: caller,
                        counterparty,
                        initiator_asset: value,
                        counterparty_asset,
                    },
                ),
                next_swap_id: (self.next_swap_id + 1) as u32,
                guard: self.guard,
            }
        } else {
            self
        }
    }

    /// What entering an acceptance returns: the first transfer owed, which passes
    /// the attached value on to the initiator, or the first check that fails, in the
    /// order guard, existence, caller, attached value.
    pub open spec fn accept_outcome(self, swap_id: u32, caller: AccountId, value: Balance) -> Result<
        Transfer,
        Error,
    > {
        if self.busy() {
            Err(Error::Reentrancy)
        } else if !self.swaps.contains_key(swap_id) {
            Err(Error::SwapNotFound)
        } else if caller != self.swaps[swap_id].counterparty {
            Err(Error::NotAuthorized)
        } else if value != self.swaps[swap_id].counterparty_asset {
            Err(Error::InsufficientCounterpartyBalance)
        } else {
            Ok(Transfer { to: self.swaps[swap_id].initiator, amount: value })
        }
    }

    /// The registry after entering an acceptance: on success the guard is held for
    /// this swap; on refusal nothing changes.
    pub open spec fn after_accept(self, swap_id: u32, caller: AccountId, value: Balance) -> RegistryState {
        if self.accept_outcome(swap_id, caller, value) is Ok {
            RegistryState { guard: Guard::PayingInitiator { swap_id }, ..self }
        } else {
            self
        }
    }

    /// What entering a cancellation returns: the refund owed to the initiator, or
    /// the first check that fails, in the order guard, existence, caller.
    pub open spec fn cancel_outcome(self, swap_id: u32, caller: AccountId) -> Result<Transfer, Error> {
        if self.busy() {
            Err(Error::Reentrancy)
        } else if !self.swaps.contains_key(swap_id) {
            Err(Error::SwapNotFound)
        } else if caller != self.swaps[swap_id].initiator {
            Err(Error::NotAuthorized)
        } else {
            Ok(
                Transfer {
                    to: self.swaps[swap_id].initiator,
                    amount: self.swaps[swap_id].initiator_asset,
                },
            )
        }
    }

    /// The registry after entering a cancellation: on success the guard is held for
    /// this swap; on refusal nothing changes.
    pub open spec fn after_cancel(self, swap_id: u32, caller: AccountId) -> RegistryState {
        if self.cancel_outcome(swap_id, caller) is Ok {
            RegistryState { guard: Guard::Refunding { swap_id }, ..self }
        } else {
            self
        }
    }

    /// How the operation in progress goes on when the host reports on the transfer
    /// it was asked for; `None` when no operation is in progress. A transfer that
    /// failed abandons the operation with `InsufficientCounterpartyBalance`.
    pub open spec fn transfer_outcome(self, report: Result<(), TransferError>) -> Option<Progress> {
        match self.guard {
            Guard::Idle => None,
            Guard::PayingInitiator { swap_id } => if report is Ok {
                Some(
                    Progress::Transfer(
                        Transfer {
                            to: self.swaps[swap_id].counterparty,
                            amount: self.swaps[swap_id].initiator_asset,
                        },
                    ),
                )
            } else {
                Some(Progress::Failed(Error::InsufficientCounterpartyBalance))
            },
            Guard::PayingCounterparty { swap_id } => if report is Ok {
                Some(Progress::Accepted(SwapAccepted { swap_id }))
            } else {
                Some(Progress::Failed(Error::InsufficientCounterpartyBalance))
            },
            Guard::Refunding { swap_id } => if report is Ok {
                Some(Progress::Cancelled(SwapCancelled { swap_id }))
            } else {
                Some(Progress::Failed(Error::InsufficientCounterpartyBalance))
            },
        }
    }

    /// The registry after such a report. The swap leaves the registry only when the
    /// last transfer of its operation went through; the guard is released whenever
    /// the operation ends, whichever way.
    pub open spec fn after_transfer(self, report: Result<(), TransferError>) -> RegistryState {
        match self.guard {
            Guard::Idle => self,
            Guard::PayingInitiator { swap_id } => if report is Ok {
                RegistryState { guard: Guard::PayingCounterparty { swap_id }, ..self }
            } else {
                RegistryState { guard: Guard::Idle, ..self }
            },
            Guard::PayingCounterparty { swap_id } | Guard::Refunding { swap_id } => if report is Ok {
                RegistryState { swaps: self.swaps.remove(swap_id), guard: Guard::Idle, ..self }
            } else {
                RegistryState { guard: Guard::Idle, ..self }
            },
        }
    }
}

} // verus!
