use vstd::prelude::*;
use crate::account::{AccountId, Balance};
use crate::error::TransferError;
use crate::state::RegistryState;

verus! {

/// One call on the registry, with everything the call is given.
pub enum Call {
    Initiate { caller: AccountId, value: Balance, counterparty: AccountId, counterparty_asset: Balance },
    Accept { swap_id: u32, caller: AccountId, value: Balance },
    Cancel { swap_id: u32, caller: AccountId },
    TransferFinished { report: Result<(), TransferError> },
}

impl RegistryState {
    /// The registry after `call`.
    pub open spec fn apply(self, call: Call) -> RegistryState {
        match call {
            Call::Initiate { caller, value, counterparty, counterparty_asset } => self.after_initiate(
                caller,
                value,
                counterparty,
                counterparty_asset,
            ),
            Call::Accept { swap_id, caller, value } => self.after_accept(swap_id, caller, value),
            Call::Cancel { swap_id, caller } => self.after_cancel(swap_id, caller),
            Call::TransferFinished { report } => self.after_transfer(report),
        }
    }

    /// The registry after all of `calls`, first to last.
    pub open spec fn apply_all(self, calls: Seq<Call>) -> RegistryState
        decreases calls.len(),
    {
        if calls.len() == 0 {
            self
        } else {
            self.apply_all(calls.drop_last()).apply(calls.last())
        }
    }

    /// Whether `call` is a proposal that this registry accepts.
    pub open spec fn admits_proposal(self, call: Call) -> bool {
        match call {
            Call::Initiate { caller, value, counterparty, counterparty_asset } => self.initiate_outcome(
                caller,
                value,
                counterparty,
                counterparty_asset,
            ) is Ok,
            _ => false,
        }
    }
}

/// The registry that a history of calls on a new registry leads to.
pub open spec fn replay(calls: Seq<Call>) -> RegistryState {
    RegistryState::initial().apply_all(calls)
}

/// How many calls of a history were proposals that succeeded.
pub open spec fn proposals_made(calls: Seq<Call>) -> nat
    decreases calls.len(),
{
    if calls.len() == 0 {
        0
    } else if replay(calls.drop_last()).admits_proposal(calls.last()) {
        proposals_made(calls.drop_last()) + 1
    } else {
        proposals_made(calls.drop_last())
    }
}

} // verus!
