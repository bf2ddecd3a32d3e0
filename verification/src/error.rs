use vstd::prelude::*;

verus! {

/// Why an operation on the registry was refused or abandoned.
#[derive(Clone, Copy, Debug, PartialEq, Eq, Structural)]
pub enum Error {
    /// No live swap is stored under the requested id.
    SwapNotFound,
    /// The caller is not the party that this operation is reserved for.
    NotAuthorized,
    /// A swap was proposed without any value attached to it.
    InsufficientInitiatorBalance,
    /// The value attached to an acceptance differs from what the swap asks for, or
    /// the host could not carry out a transfer.
    InsufficientCounterpartyBalance,
    /// Every swap id has been handed out.
    SwapIdOverflow,
    /// A guarded operation was entered while another one had not finished.
    Reentrancy,
}

/// The host's report that a transfer did not go through.
#[derive(Clone, Copy, Debug, PartialEq, Eq, Structural)]
pub struct TransferError;

} // verus!
