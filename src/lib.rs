//! Peer-to-peer wagers: an escrow service that holds two equal stakes and
//! releases them by a fixed payout rule, a game service that tracks matches,
//! player ratings and statistics and instructs the escrow service, and a
//! membership service that splits an entry fee between referrer and platform.
pub mod backgammon_game;
pub mod chain;
pub mod decimal;
pub mod pyramid_splitter;
pub mod table;
pub mod wager_escrow;
