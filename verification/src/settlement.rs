use vstd::prelude::*;
use crate::account::{AccountId, Balance};
use crate::error::Error;
use crate::event::{SwapAccepted, SwapCancelled};

verus! {

/// An instruction to the host: move `amount` out of custody to `to`, then report
/// how that went.
#[derive(Clone, Copy, Debug, PartialEq, Eq)]
pub struct Transfer {
    pub to: AccountId,
    pub amount: Balance,
}

/// The reentrancy guard. While it is not `Idle` a guarded operation is waiting for
/// the host to report on a transfer, and the guard remembers which one.
#[derive(Clone, Copy, Debug, PartialEq, Eq, Structural)]
pub enum Guard {
    /// No guarded operation is in progress.
    Idle,
    /// An acceptance is passing the counterparty's payment on to the initiator.
    PayingInitiator { swap_id: u32 },
    /// An acceptance is releasing the locked funds to the counterparty.
    PayingCounterparty { swap_id: u32 },
    /// A cancellation is returning the locked funds to the initiator.
    Refunding { swap_id: u32 },
}

impl Guard {
    /// The swap that the operation in progress is about.
    pub open spec fn pending(self) -> Option<u32> {
        match self {
            Guard::Idle => None,
            Guard::PayingInitiator { swap_id } => Some(swap_id),
            Guard::PayingCounterparty { swap_id } => Some(swap_id),
            Guard::Refunding { swap_id } => Some(swap_id),
        }
    }
}

/// How a guarded operation goes on once the host has reported on a transfer.
#[derive(Clone, Copy, Debug, PartialEq, Eq)]
pub enum Progress {
    /// One more transfer is owed.
    Transfer(Transfer),
    /// The acceptance is complete; the event is to be recorded.
    Accepted(SwapAccepted),
    /// The cancellation is complete; the event is to be recorded.
    Cancelled(SwapCancelled),
    /// The operation was abandoned; the swap is still live.
    Failed(Error),
}

} // verus!
