pub mod account;
pub mod contract;
pub mod error;
pub mod event;
pub mod history;
pub mod laws;
pub mod settlement;
pub mod snapshot;
pub mod state;
pub mod swap;

pub use account::{AccountId, Balance};
pub use contract::SwapContract;
pub use error::{Error, TransferError};
pub use event::{SwapAccepted, SwapCancelled, SwapInitiated};
pub use settlement::{Guard, Progress, Transfer};
pub use swap::Swap;
