use vstd::prelude::*;

use crate::wager_escrow::msg::ExecuteMsg as EscrowExecuteMsg;

verus! {

#[derive(Debug)]
pub struct InstantiateMsg {
    pub escrow_contract: Option<String>,
    pub server_address: Option<String>,
    pub usdc_denom: String,
}

#[derive(Debug)]
pub enum ExecuteMsg {
    /// Create a match against `opponent`; also opens an escrow when one is configured.
    CreateGame { opponent: String, wager_amount: u128 },
    /// Mark a match as in progress.
    StartGame { game_id: String },
    /// Report a result: "normal", "gammon" or "backgammon".
    ReportResult { game_id: String, winner: String, result_type: String, move_count: u32 },
    /// Report that a player abandoned the match; the other one wins.
    ReportAbandonment { game_id: String, abandoner: String },
    /// Admin: update the configuration.
    UpdateConfig { escrow_contract: Option<String>, server_address: Option<String> },
}

#[derive(Debug)]
pub struct MigrateMsg {}

#[derive(Debug)]
pub enum QueryMsg {
    Config {},
    Game { game_id: String },
    PlayerStats { address: String },
    Stats {},
    PlayerGames { address: String, start_after: Option<String>, limit: Option<u32> },
}

#[derive(Debug)]
pub struct ConfigResponse {
    pub admin: String,
    pub escrow_contract: Option<String>,
    pub server_address: Option<String>,
    pub usdc_denom: String,
}

#[derive(Debug)]
pub struct GameResponse {
    pub game_id: String,
    pub player_a: String,
    pub player_b: String,
    pub wager_amount: u128,
    pub status: String,
    pub winner: Option<String>,
    pub result_type: Option<String>,
    pub created_at: u64,
    pub completed_at: Option<u64>,
    pub move_count: u32,
}

#[derive(Debug)]
pub struct PlayerStatsResponse {
    pub address: String,
    pub games_played: u32,
    pub games_won: u32,
    pub rating: u32,
    pub total_wagered: u128,
    pub total_won: u128,
}

#[derive(Debug)]
pub struct StatsResponse {
    pub total_games: u64,
}

#[derive(Debug)]
pub struct GamesListResponse {
    pub games: Vec<GameResponse>,
}

/// The answer to a query, one variant per query.
#[derive(Debug)]
pub enum QueryResponse {
    Config(ConfigResponse),
    Game(GameResponse),
    PlayerStats(PlayerStatsResponse),
    Stats(StatsResponse),
    PlayerGames(GamesListResponse),
}

/// An instruction for the escrow service at `contract_addr`.
#[derive(Debug)]
pub struct EscrowCall {
    pub contract_addr: String,
    pub msg: EscrowExecuteMsg,
}

} // verus!
