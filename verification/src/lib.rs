//! A trustless event-ticketing ledger: event registration, per-event
//! validators, single-use ticket check-in and quorum-gated escrow release,
//! stated over mathematical models and proved against them.
//!
//! - [`state`] is the ledger as a mathematical state machine: its state and,
//!   for each operation, the state and the result that the operation owes.
//! - [`contract`] is the ledger itself, kept in memory; each operation is
//!   proved to do what [`state`] says.
//! - [`rules`] holds the decisions on single records, for callers that keep
//!   the records in a store of their own.
//! - [`laws`] proves what holds across operations: a ticket is checked in at
//!   most once, an organizer is always a validator, a quorum is used up by
//!   its release.
//! - [`sponsors`] is the registry of sponsor tiers.
//! - [`models`] and [`table`] hold the records and the keyed store under them.
//!
//! Proof of a principal's identity is not part of the library: whoever calls
//! an operation on behalf of a principal has obtained it.

pub mod contract;
pub mod laws;
pub mod models;
pub mod rules;
pub mod sponsors;
pub mod state;
pub mod table;

pub use contract::TicketContract;
pub use models::{EscrowConfig, EventAuth, LedgerError, Notification, Ticket};
pub use sponsors::{SponsorsContract, Tier};
