//! The game service: match lifecycle, player statistics and ratings, and the
//! instructions it hands to the escrow service.
pub mod contract;
pub mod error;
pub mod msg;
pub mod rating;
pub mod state;
