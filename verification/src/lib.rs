//! A two-party escrow and the fee accumulator that settlements report to.
//!
//! The escrow holds a fixed amount of one asset for a payer and a payee. It
//! moves through `Pending`, `Submitted` and `Released`, each step taken only
//! by the party entitled to it, and on release it splits the amount between
//! the payee and a fee collector. The host ledger authenticates callers,
//! moves the asset and keeps the records; every entry point here is a total
//! function from the stored record and what the host observed to the new
//! record and the call's result.

pub mod accumulator;
pub mod escrow;
pub mod identity;
pub mod laws;
pub mod record;
pub mod rules;
pub mod split;
pub mod state;

pub use accumulator::{AccumulatorError, FeeAccumulator};
pub use escrow::MicroEscrow;
pub use identity::Identity;
pub use record::{
    Deposit, EscrowError, EscrowRecord, FundsLocked, FundsReleased, Settlement, WorkSubmitted,
};
pub use split::{split, Split};
pub use state::State;
