use vstd::prelude::*;
use crate::account::{AccountId, Balance};

verus! {

/// A pending exchange between two parties.
#[derive(Clone, Copy, Debug, PartialEq, Eq)]
pub struct Swap {
    /// The account that locked funds when it proposed the swap.
    pub initiator: AccountId,
    /// The only account that may accept the swap.
    pub counterparty: AccountId,
    /// What the initiator locked; held in custody until the swap is resolved.
    pub initiator_asset: Balance,
    /// What the counterparty has to attach to accept the swap.
    pub counterparty_asset: Balance,
}

} // verus!
