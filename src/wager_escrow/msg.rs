use vstd::prelude::*;

verus! {

#[derive(Debug)]
pub struct InstantiateMsg {
    pub usdc_denom: String,
    pub rake_bps: u16,
    pub rake_recipient: String,
    pub min_wager: u128,
    pub max_wager: u128,
    pub timeout_seconds: u64,
    pub game_contract: Option<String>,
}

#[derive(Debug)]
pub enum ExecuteMsg {
    /// Create a new escrow for a game match.
    CreateEscrow { game_id: String, player_a: String, player_b: String, wager_amount: u128 },
    /// Deposit the stake; the payment comes with the call.
    Deposit { game_id: String },
    /// Pay the winner. Called by the game service or the admin.
    Settle { game_id: String, winner: String },
    /// Pay the winner; the multiplier is carried along and leaves the payout as it is.
    SettleWithMultiplier { game_id: String, winner: String, multiplier: u32 },
    /// Refund whoever deposited. Called by the game service or the admin.
    Cancel { game_id: String },
    /// Reclaim a stake when the opponent has not deposited in time.
    ClaimTimeout { game_id: String },
    /// Admin: update the configuration.
    UpdateConfig {
        game_contract: Option<String>,
        rake_bps: Option<u16>,
        rake_recipient: Option<String>,
        min_wager: Option<u128>,
        max_wager: Option<u128>,
        timeout_seconds: Option<u64>,
    },
}

#[derive(Debug)]
pub struct MigrateMsg {}

#[derive(Debug)]
pub enum QueryMsg {
    Config {},
    Escrow { game_id: String },
    Stats {},
}

#[derive(Debug)]
pub struct ConfigResponse {
    pub admin: String,
    pub game_contract: Option<String>,
    pub usdc_denom: String,
    pub rake_bps: u16,
    pub rake_recipient: String,
    pub min_wager: u128,
    pub max_wager: u128,
    pub timeout_seconds: u64,
}

#[derive(Debug)]
pub struct EscrowResponse {
    pub game_id: String,
    pub player_a: String,
    pub player_b: String,
    pub wager_amount: u128,
    pub player_a_deposited: bool,
    pub player_b_deposited: bool,
    pub status: String,
    pub created_at: u64,
    pub settled_at: Option<u64>,
}

#[derive(Debug)]
pub struct StatsResponse {
    pub total_rake_collected: u128,
    pub total_games_settled: u64,
}

/// The answer to a query, one variant per query.
#[derive(Debug)]
pub enum QueryResponse {
    Config(ConfigResponse),
    Escrow(EscrowResponse),
    Stats(StatsResponse),
}

} // verus!
