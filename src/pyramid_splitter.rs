//! The membership service: an entry fee split between the referrer and the
//! platform, membership by direct payment or by a minted token.
pub mod contract;
pub mod error;
pub mod msg;
pub mod state;
