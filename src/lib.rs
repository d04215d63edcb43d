//! A deflationary token policy: every transfer burns a fixed half percent of
//! the amount, and mint and burn requests are checked before the ledger runs
//! them. The library decides; the token ledger itself is driven by the caller
//! through the step machine in [`session`].

pub mod amount;
pub mod ledger;
pub mod accounts;
pub mod events;
pub mod session;
pub mod program;
pub mod laws;

pub use program::{burn_tokens, initialize, mint_tokens, transfer_with_burn};
pub use accounts::{BurnTokens, Initialize, MintTokens, TransferWithBurn};
pub use events::{BurnEvent, TransferEvent};
pub use amount::ErrorCode;
