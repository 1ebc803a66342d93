use vstd::prelude::*;

use super::state::GameStatus;

verus! {

#[derive(Debug)]
pub enum ContractError {
    Unauthorized {},
    GameNotFound { game_id: String },
    GameAlreadyExists { game_id: String },
    InvalidGameStatus { expected: &'static str, got: GameStatus },
    /// The named winner, or abandoner, is not a player of the match.
    InvalidWinner {},
    InvalidResultType { result_type: String },
    SelfPlay {},
    /// The match counter would pass `u64::MAX`.
    Overflow {},
}

} // verus!
