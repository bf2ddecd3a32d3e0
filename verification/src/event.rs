use vstd::prelude::*;
use crate::account::{AccountId, Balance};

verus! {

/// Recorded when a swap has been proposed.
#[derive(Clone, Copy, Debug, PartialEq, Eq)]
pub struct SwapInitiated {
    pub swap_id: u32,
    pub initiator: AccountId,
    pub counterparty: AccountId,
    pub initiator_asset: Balance,
    pub counterparty_asset: Balance,
}

/// Recorded when both sides of a swap have been paid out.
#[derive(Clone, Copy, Debug, PartialEq, Eq, Structural)]
pub struct SwapAccepted {
    pub swap_id: u32,
}

/// Recorded when the initiator has taken the locked funds back.
#[derive(Clone, Copy, Debug, PartialEq, Eq, Structural)]
pub struct SwapCancelled {
    pub swap_id: u32,
}

} // verus!
