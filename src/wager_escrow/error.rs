use vstd::prelude::*;

use super::state::EscrowStatus;

verus! {

#[derive(Debug)]
#[allow(inconsistent_fields)]
pub enum ContractError {
    Unauthorized {},
    EscrowAlreadyExists { game_id: String },
    EscrowNotFound { game_id: String },
    InvalidWager { amount: u128, min: u128, max: u128 },
    InvalidPayment { expected: u128, received: u128, denom: String },
    NoPayment {},
    AlreadyDeposited {},
    NotAPlayer {},
    InvalidEscrowStatus { expected: &'static str, got: EscrowStatus },
    TimeoutNotReached { remaining: u64 },
    InvalidWinner {},
    InsufficientBalance { needed: u128, available: u128 },
    /// The pot would not fit a `u128`, or the rake would exceed the pot.
    Overflow {},
}

} // verus!
