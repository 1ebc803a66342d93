//! The escrow service: a two-party holding record per match, deposits,
//! settlement with a rake, cancellation and timeout recovery.
pub mod contract;
pub mod error;
pub mod msg;
pub mod state;
