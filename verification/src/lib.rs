//! State-transition engine of a binary-outcome prediction market.
//!
//! Commands are applied one at a time to an explicit [`command::Context`]:
//! the player ledger, the market record with its pricing engine, the
//! settlement queue of outbound transfers and the event log.

pub mod error;
pub mod player;
pub mod settlement;
pub mod event;
pub mod state;
pub mod command;
