//! A raffle core: creation, prize custody, ticket sales, winner selection,
//! payout and cancellation with refunds.
//!
//! Every operation is a pure step over the persisted state of one raffle: it
//! validates, then either rejects with no effect at all or returns the new
//! state together with the token movements (`Transfer`) and audit events
//! (`RaffleEvent`) that the host must carry out. Identities and token
//! ledgers are plain `AccountId` values.

pub mod escrow;
pub mod events;
pub mod laws;
pub mod ledger;
pub mod machine;
pub mod model;
pub mod registry;
pub mod selector;
pub mod types;

pub use escrow::{settle, Transfer};
pub use events::{Effects, RaffleEvent};
pub use ledger::TicketLedger;
pub use machine::RaffleState;
pub use registry::RaffleRegistry;
pub use selector::{select_winner, RandomnessSource};
pub use types::{AccountId, Raffle, RaffleError, RaffleStatus, Ticket};
