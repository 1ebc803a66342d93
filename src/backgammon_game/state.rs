use vstd::prelude::*;

use crate::chain::clone_opt;
use crate::table::Table;

verus! {

#[derive(Debug)]
pub struct Config {
    pub admin: String,
    /// The escrow service that holds the stakes, if any.
    pub escrow_contract: Option<String>,
    /// The reporter that may start matches and report their results.
    pub server_address: Option<String>,
    /// The denomination of stakes.
    pub usdc_denom: String,
}

impl Clone for Config {
    fn clone(&self) -> (r: Self)
        ensures
            r == *self,
    {
        Config {
            admin: self.admin.clone(),
            escrow_contract: clone_opt(&self.escrow_contract),
            server_address: clone_opt(&self.server_address),
            usdc_denom: self.usdc_denom.clone(),
        }
    }
}

#[derive(Clone, Copy, Debug, PartialEq, Eq, Structural)]
pub enum GameStatus {
    Created,
    InProgress,
    Completed,
    Abandoned,
}

#[derive(Clone, Copy, Debug, PartialEq, Eq, Structural)]
pub enum ResultType {
    Normal,
    Gammon,
    Backgammon,
}

pub open spec fn game_status_label(s: GameStatus) -> &'static str {
    match s {
        GameStatus::Created => "Created",
        GameStatus::InProgress => "InProgress",
        GameStatus::Completed => "Completed",
        GameStatus::Abandoned => "Abandoned",
    }
}

pub open spec fn result_type_label(t: ResultType) -> &'static str {
    match t {
        ResultType::Normal => "Normal",
        ResultType::Gammon => "Gammon",
        ResultType::Backgammon => "Backgammon",
    }
}

impl GameStatus {
    pub fn label(&self) -> (r: &'static str)
        ensures
            r == game_status_label(*self),
    {
        match self {
            GameStatus::Created => "Created",
            GameStatus::InProgress => "InProgress",
            GameStatus::Completed => "Completed",
            GameStatus::Abandoned => "Abandoned",
        }
    }
}

impl ResultType {
    pub fn label(&self) -> (r: &'static str)
        ensures
            r == result_type_label(*self),
    {
        match self {
            ResultType::Normal => "Normal",
            ResultType::Gammon => "Gammon",
            ResultType::Backgammon => "Backgammon",
        }
    }

    /// The payout multiplier that the result stands for.
    pub fn multiplier(&self) -> (r: u32)
        ensures
            r == multiplier_of(*self),
    {
        match self {
            ResultType::Normal => 1,
            ResultType::Gammon => 2,
            ResultType::Backgammon => 3,
        }
    }
}

pub open spec fn multiplier_of(t: ResultType) -> u32 {
    match t {
        ResultType::Normal => 1,
        ResultType::Gammon => 2,
        ResultType::Backgammon => 3,
    }
}

#[derive(Debug)]
pub struct Game {
    pub game_id: String,
    pub player_a: String,
    pub player_b: String,
    pub wager_amount: u128,
    pub status: GameStatus,
    pub winner: Option<String>,
    pub result_type: Option<ResultType>,
    pub created_at: u64,
    pub completed_at: Option<u64>,
    pub move_count: u32,
}

impl Clone for Game {
    fn clone(&self) -> (r: Self)
        ensures
            r == *self,
    {
        Game {
            game_id: self.game_id.clone(),
            player_a: self.player_a.clone(),
            player_b: self.player_b.clone(),
            wager_amount: self.wager_amount,
            status: self.status,
            winner: clone_opt(&self.winner),
            result_type: self.result_type,
            created_at: self.created_at,
            completed_at: self.completed_at,
            move_count: self.move_count,
        }
    }
}

impl Game {
    pub open spec fn is_player(&self, who: Seq<char>) -> bool {
        who == self.player_a@ || who == self.player_b@
    }

    pub open spec fn is_finished(&self) -> bool {
        self.status == GameStatus::Completed || self.status == GameStatus::Abandoned
    }

    /// Two different players; a winner, a result and a completion time
    /// exactly when the match is over, and the winner is one of the players.
    pub open spec fn wf(&self) -> bool {
        &&& self.player_a@ != self.player_b@
        &&& (self.winner is Some <==> self.is_finished())
        &&& (self.result_type is Some <==> self.is_finished())
        &&& (self.completed_at is Some <==> self.is_finished())
        &&& (self.winner matches Some(w) ==> self.is_player(w@))
    }
}

#[derive(Debug)]
pub struct PlayerStats {
    pub address: String,
    pub games_played: u32,
    pub games_won: u32,
    /// Hundredths of a rating point: 150000 is 1500.00.
    pub rating: u32,
    pub total_wagered: u128,
    pub total_won: u128,
}

impl Clone for PlayerStats {
    fn clone(&self) -> (r: Self)
        ensures
            r == *self,
    {
        PlayerStats {
            address: self.address.clone(),
            games_played: self.games_played,
            games_won: self.games_won,
            rating: self.rating,
            total_wagered: self.total_wagered,
            total_won: self.total_won,
        }
    }
}

/// Everything the game service keeps.
#[derive(Debug)]
pub struct State {
    pub config: Config,
    /// Matches by id, in order of creation.
    pub games: Table<Game>,
    /// Statistics by player address.
    pub player_stats: Table<PlayerStats>,
    pub total_games: u64,
    /// The number of the last match created.
    pub game_counter: u64,
}

impl State {
    pub open spec fn wf(&self) -> bool {
        &&& self.games.wf()
        &&& self.player_stats.wf()
        &&& forall|k: Seq<char>| #[trigger] self.games@.contains_key(k) ==> {
            let g = self.games@[k];
            &&& g.wf()
            &&& g.game_id@ == k
            &&& self.player_stats@.contains_key(g.player_a@)
            &&& self.player_stats@.contains_key(g.player_b@)
        }
    }
}

} // verus!
