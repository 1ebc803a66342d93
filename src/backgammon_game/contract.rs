use vstd::prelude::*;

use crate::chain::{Env, MessageInfo};
use crate::decimal::{decimal, push_decimal};
use crate::table::Table;
use crate::wager_escrow::msg::ExecuteMsg as EscrowExecuteMsg;
use super::error::ContractError;
use super::msg::{
    ConfigResponse, EscrowCall, ExecuteMsg, GameResponse, GamesListResponse, InstantiateMsg,
    MigrateMsg, PlayerStatsResponse, QueryMsg, QueryResponse, StatsResponse,
};
use super::rating::{
    default_stats, new_player_stats, record_loss, record_win, stats_after_loss, stats_after_win,
};
use super::state::{
    game_status_label, multiplier_of, result_type_label, Config, Game, GameStatus, PlayerStats,
    ResultType, State,
};

verus! {

/// Whether `who` may start matches and report results: the admin or the
/// configured reporter.
pub open spec fn is_reporter(c: Config, who: Seq<char>) -> bool {
    who == c.admin@ || (c.server_address matches Some(s) && s@ == who)
}

pub fn is_authorized(config: &Config, sender: &String) -> (r: bool)
    ensures
        r == is_reporter(*config, sender@),
{
    if *sender == config.admin {
        return true;
    }
    match &config.server_address {
        Some(s) => *sender == *s,
        None => false,
    }
}

pub open spec fn is_open(g: Game) -> bool {
    g.status == GameStatus::Created || g.status == GameStatus::InProgress
}

/// The player of `g` that is not `who`.
pub open spec fn other_player(g: Game, who: Seq<char>) -> String {
    if who == g.player_a@ {
        g.player_b
    } else {
        g.player_a
    }
}

/// The result categories by name.
pub open spec fn parse_result_type(s: Seq<char>) -> Option<ResultType> {
    if s == "normal"@ {
        Some(ResultType::Normal)
    } else if s == "gammon"@ {
        Some(ResultType::Gammon)
    } else if s == "backgammon"@ {
        Some(ResultType::Backgammon)
    } else {
        None
    }
}

pub fn parse_result(s: &String) -> (r: Option<ResultType>)
    ensures
        r == parse_result_type(s@),
{
    proof {
        reveal_strlit("normal");
        reveal_strlit("gammon");
        reveal_strlit("backgammon");
    }
    if *s == String::from_str("normal") {
        Some(ResultType::Normal)
    } else if *s == String::from_str("gammon") {
        Some(ResultType::Gammon)
    } else if *s == String::from_str("backgammon") {
        Some(ResultType::Backgammon)
    } else {
        None
    }
}

/// The match once it is over.
pub open spec fn finished_game(g: Game, status: GameStatus, winner: String, result: ResultType, now: u64, move_count: u32) -> Game {
    Game { status, winner: Some(winner), result_type: Some(result), completed_at: Some(now), move_count, ..g }
}

/// `s2` is `s` with match `game_id` replaced by `g2` and the statistics of
/// winner and loser updated for a match with stake `wager`.
pub open spec fn concluded(s: State, s2: State, game_id: Seq<char>, g2: Game, winner: Seq<char>, loser: Seq<char>, wager: u128) -> bool {
    &&& s2.config == s.config
    &&& s2.total_games == s.total_games
    &&& s2.game_counter == s.game_counter
    &&& s2.games@ == s.games@.insert(game_id, g2)
    &&& s2.player_stats@ == s.player_stats@
        .insert(winner, stats_after_win(s.player_stats@[winner], wager))
        .insert(loser, stats_after_loss(s.player_stats@[loser], wager))
}

/// The settlement instruction for a finished match: none without an escrow
/// service or without a stake; the multiplier travels only when above one.
pub open spec fn settle_call(c: Config, game_id: String, winner: String, wager: u128, multiplier: u32) -> Option<EscrowCall> {
    match c.escrow_contract {
        Some(addr) => if wager > 0 {
            Some(EscrowCall {
                contract_addr: addr,
                msg: if multiplier > 1 {
                    EscrowExecuteMsg::SettleWithMultiplier { game_id, winner, multiplier }
                } else {
                    EscrowExecuteMsg::Settle { game_id, winner }
                },
            })
        } else {
            None
        },
        None => None,
    }
}

fn make_settle_call(config: &Config, game_id: String, winner: String, wager: u128, multiplier: u32) -> (r: Option<EscrowCall>)
    ensures
        r == settle_call(*config, game_id, winner, wager, multiplier),
{
    match &config.escrow_contract {
        Some(addr) => if wager > 0 {
            let msg = if multiplier > 1 {
                EscrowExecuteMsg::SettleWithMultiplier { game_id, winner, multiplier }
            } else {
                EscrowExecuteMsg::Settle { game_id, winner }
            };
            Some(EscrowCall { contract_addr: addr.clone(), msg })
        } else {
            None
        },
        None => None,
    }
}

fn stats_position(stats: &Table<PlayerStats>, addr: &String) -> (r: usize)
    requires
        stats.wf(),
        stats@.contains_key(addr@),
    ensures
        r < stats.entries@.len(),
        stats.entries@[r as int].0@ == addr@,
        stats@[addr@] == stats.entries@[r as int].1,
{
    match stats.find(addr) {
        Some(i) => i,
        None => vstd::pervasive::unreached(),
    }
}

/// Closes match `i` with `winner` over `loser`, and updates both players'
/// statistics and ratings. The one shared path of results and abandonments.
fn conclude_game(
    state: &mut State,
    i: usize,
    winner: String,
    loser: String,
    status: GameStatus,
    result: ResultType,
    now: u64,
    move_count: u32,
)
    requires
        old(state).wf(),
        i < old(state).games.entries@.len(),
        is_open(old(state).games.entries@[i as int].1),
        old(state).games.entries@[i as int].1.is_player(winner@),
        loser@ == other_player(old(state).games.entries@[i as int].1, winner@)@,
        status == GameStatus::Completed || status == GameStatus::Abandoned,
    ensures
        final(state).wf(),
        ({
            let g = old(state).games.entries@[i as int].1;
            concluded(*old(state), *final(state), g.game_id@,
                finished_game(g, status, winner, result, now, move_count), winner@, loser@, g.wager_amount)
        }),
{
    proof {
        state.games.lemma_index(i as int);
    }
    let g = state.games.value_at(i);
    let wager = g.wager_amount;
    let wi = stats_position(&state.player_stats, &winner);
    let li = stats_position(&state.player_stats, &loser);
    let won = record_win(state.player_stats.value_at(wi), wager);
    let lost = record_loss(state.player_stats.value_at(li), wager);
    let finished = Game {
        status,
        winner: Some(winner),
        result_type: Some(result),
        completed_at: Some(now),
        move_count,
        ..g.clone()
    };
    state.games.set_at(i, finished);
    state.player_stats.set_at(wi, won);
    state.player_stats.set_at(li, lost);
}

pub open spec fn report_result_error(s: State, sender: Seq<char>, game_id: String, winner: Seq<char>, result_type: String) -> Option<ContractError> {
    if !is_reporter(s.config, sender) {
        Some(ContractError::Unauthorized {})
    } else if !s.games@.contains_key(game_id@) {
        Some(ContractError::GameNotFound { game_id })
    } else {
        let g = s.games@[game_id@];
        if !is_open(g) {
            Some(ContractError::InvalidGameStatus { expected: "Created or InProgress", got: g.status })
        } else if !g.is_player(winner) {
            Some(ContractError::InvalidWinner {})
        } else if parse_result_type(result_type@) is None {
            Some(ContractError::InvalidResultType { result_type })
        } else {
            None
        }
    }
}

/// The effect of a reported result: the match completed with its winner,
/// category and move count, both players' statistics updated, and the
/// settlement instruction with the category's multiplier.
pub open spec fn report_result_effect(s: State, s2: State, env: Env, game_id: String, winner: String, result_type: String, move_count: u32, call: Option<EscrowCall>) -> bool {
    let g = s.games@[game_id@];
    let rt = parse_result_type(result_type@)->Some_0;
    &&& concluded(s, s2, game_id@, finished_game(g, GameStatus::Completed, winner, rt, env.block_time, move_count),
        winner@, other_player(g, winner@)@, g.wager_amount)
    &&& call == settle_call(s.config, game_id, winner, g.wager_amount, multiplier_of(rt))
}

/// Records the result of an open match, updates both players' ratings and
/// statistics, and returns the settlement instruction for the escrow service.
pub fn execute_report_result(
    state: &mut State,
    env: &Env,
    info: &MessageInfo,
    game_id: String,
    winner: String,
    result_type: String,
    move_count: u32,
) -> (r: Result<Option<EscrowCall>, ContractError>)
    requires
        old(state).wf(),
    ensures
        final(state).wf(),
        match report_result_error(*old(state), info.sender@, game_id, winner@, result_type) {
            Some(err) => r == Err::<Option<EscrowCall>, ContractError>(err) && *final(state) == *old(state),
            None => r matches Ok(call) && report_result_effect(*old(state), *final(state), *env, game_id, winner, result_type, move_count, call),
        },
{
    if !is_authorized(&state.config, &info.sender) {
        return Err(ContractError::Unauthorized {});
    }
    let i = match state.games.find(&game_id) {
        Some(i) => i,
        None => {
            return Err(ContractError::GameNotFound { game_id });
        },
    };
    let g = state.games.value_at(i);
    if g.status != GameStatus::Created && g.status != GameStatus::InProgress {
        return Err(ContractError::InvalidGameStatus { expected: "Created or InProgress", got: g.status });
    }
    if winner != g.player_a && winner != g.player_b {
        return Err(ContractError::InvalidWinner {});
    }
    let result = match parse_result(&result_type) {
        Some(t) => t,
        None => {
            return Err(ContractError::InvalidResultType { result_type });
        },
    };
    let multiplier = result.multiplier();
    let loser = if winner == g.player_a { g.player_b.clone() } else { g.player_a.clone() };
    let wager = g.wager_amount;
    conclude_game(state, i, winner.clone(), loser, GameStatus::Completed, result, env.block_time, move_count);
    Ok(make_settle_call(&state.config, game_id, winner, wager, multiplier))
}

pub open spec fn report_abandonment_error(s: State, sender: Seq<char>, game_id: String, abandoner: Seq<char>) -> Option<ContractError> {
    if !is_reporter(s.config, sender) {
        Some(ContractError::Unauthorized {})
    } else if !s.games@.contains_key(game_id@) {
        Some(ContractError::GameNotFound { game_id })
    } else {
        let g = s.games@[game_id@];
        if !is_open(g) {
            Some(ContractError::InvalidGameStatus { expected: "Created or InProgress", got: g.status })
        } else if !g.is_player(abandoner) {
            Some(ContractError::InvalidWinner {})
        } else {
            None
        }
    }
}

/// The effect of an abandonment: the other player wins a normal result, by
/// the same conclusion and settlement as a reported result with multiplier 1.
pub open spec fn report_abandonment_effect(s: State, s2: State, env: Env, game_id: String, abandoner: Seq<char>, call: Option<EscrowCall>) -> bool {
    let g = s.games@[game_id@];
    let winner = other_player(g, abandoner);
    &&& concluded(s, s2, game_id@, finished_game(g, GameStatus::Abandoned, winner, ResultType::Normal, env.block_time, g.move_count),
        winner@, abandoner, g.wager_amount)
    &&& call == settle_call(s.config, game_id, winner, g.wager_amount, 1)
}

/// Records that `abandoner` left an open match: the other player wins.
pub fn execute_report_abandonment(
    state: &mut State,
    env: &Env,
    info: &MessageInfo,
    game_id: String,
    abandoner: String,
) -> (r: Result<Option<EscrowCall>, ContractError>)
    requires
        old(state).wf(),
    ensures
        final(state).wf(),
        match report_abandonment_error(*old(state), info.sender@, game_id, abandoner@) {
            Some(err) => r == Err::<Option<EscrowCall>, ContractError>(err) && *final(state) == *old(state),
            None => r matches Ok(call) && report_abandonment_effect(*old(state), *final(state), *env, game_id, abandoner@, call),
        },
{
    if !is_authorized(&state.config, &info.sender) {
        return Err(ContractError::Unauthorized {});
    }
    let i = match state.games.find(&game_id) {
        Some(i) => i,
        None => {
            return Err(ContractError::GameNotFound { game_id });
        },
    };
    let g = state.games.value_at(i);
    if g.status != GameStatus::Created && g.status != GameStatus::InProgress {
        return Err(ContractError::InvalidGameStatus { expected: "Created or InProgress", got: g.status });
    }
    if abandoner != g.player_a && abandoner != g.player_b {
        return Err(ContractError::InvalidWinner {});
    }
    let winner = if abandoner == g.player_a { g.player_b.clone() } else { g.player_a.clone() };
    let wager = g.wager_amount;
    let move_count = g.move_count;
    proof {
        assert(abandoner@ == other_player(*g, winner@)@);
    }
    conclude_game(state, i, winner.clone(), abandoner, GameStatus::Abandoned, ResultType::Normal, env.block_time, move_count);
    Ok(make_settle_call(&state.config, game_id, winner, wager, 1))
}


/// The id of the `n`-th match: "game-" and `n` in decimal.
pub open spec fn game_id_of(n: nat) -> Seq<char> {
    "game-"@ + decimal(n)
}

pub fn game_id_for(n: u64) -> (r: String)
    ensures
        r@ == game_id_of(n as nat),
{
    let mut s = String::from_str("game-");
    push_decimal(&mut s, n);
    s
}

/// The statistics map with default statistics for `addr` when it has none.
pub open spec fn with_default(m: Map<Seq<char>, PlayerStats>, addr: String) -> Map<Seq<char>, PlayerStats> {
    if m.contains_key(addr@) {
        m
    } else {
        m.insert(addr@, default_stats(addr))
    }
}

/// Gives `addr` default statistics unless it already has some.
pub fn ensure_player_stats(stats: &mut Table<PlayerStats>, addr: &String)
    requires
        old(stats).wf(),
    ensures
        final(stats).wf(),
        final(stats)@ == with_default(old(stats)@, *addr),
{
    if !stats.contains(addr) {
        stats.insert(addr.clone(), new_player_stats(addr.clone()));
    }
}

pub open spec fn create_game_error(s: State, sender: Seq<char>, opponent: Seq<char>) -> Option<ContractError> {
    if sender == opponent {
        Some(ContractError::SelfPlay {})
    } else if s.game_counter + 1 > u64::MAX || s.total_games + 1 > u64::MAX {
        Some(ContractError::Overflow {})
    } else {
        None
    }
}

/// A new match, not yet started.
pub open spec fn new_game(game_id: String, player_a: String, player_b: String, wager: u128, now: u64) -> Game {
    Game {
        game_id,
        player_a,
        player_b,
        wager_amount: wager,
        status: GameStatus::Created,
        winner: None,
        result_type: None,
        created_at: now,
        completed_at: None,
        move_count: 0,
    }
}

/// The effect of creating a match: the next id, the match stored under it,
/// the counters advanced, default statistics for new players, and an escrow
/// for the same id, players and stake when an escrow service is configured.
pub open spec fn create_game_effect(s: State, s2: State, env: Env, sender: String, opponent: String, wager: u128, call: Option<EscrowCall>) -> bool {
    let id = game_id_of((s.game_counter + 1) as nat);
    let g = s2.games@[id];
    &&& s2.config == s.config
    &&& s2.game_counter == s.game_counter + 1
    &&& s2.total_games == s.total_games + 1
    &&& g.game_id@ == id
    &&& g == new_game(g.game_id, sender, opponent, wager, env.block_time)
    &&& s2.games@ == s.games@.insert(id, g)
    &&& s2.player_stats@ == with_default(with_default(s.player_stats@, sender), opponent)
    &&& call == match s.config.escrow_contract {
        Some(addr) => Some(EscrowCall {
            contract_addr: addr,
            msg: EscrowExecuteMsg::CreateEscrow { game_id: g.game_id, player_a: sender, player_b: opponent, wager_amount: wager },
        }),
        None => None,
    }
}

/// Creates a match between the sender and `opponent` under the next id.
pub fn execute_create_game(state: &mut State, env: &Env, info: &MessageInfo, opponent: String, wager_amount: u128) -> (r: Result<Option<EscrowCall>, ContractError>)
    requires
        old(state).wf(),
    ensures
        final(state).wf(),
        match create_game_error(*old(state), info.sender@, opponent@) {
            Some(err) => r == Err::<Option<EscrowCall>, ContractError>(err) && *final(state) == *old(state),
            None => r matches Ok(call) && create_game_effect(*old(state), *final(state), *env, info.sender, opponent, wager_amount, call),
        },
{
    if info.sender == opponent {
        return Err(ContractError::SelfPlay {});
    }
    let counter = match state.game_counter.checked_add(1) {
        Some(c) => c,
        None => {
            return Err(ContractError::Overflow {});
        },
    };
    let total = match state.total_games.checked_add(1) {
        Some(t) => t,
        None => {
            return Err(ContractError::Overflow {});
        },
    };
    let game_id = game_id_for(counter);
    let game = Game {
        game_id: game_id.clone(),
        player_a: info.sender.clone(),
        player_b: opponent.clone(),
        wager_amount,
        status: GameStatus::Created,
        winner: None,
        result_type: None,
        created_at: env.block_time,
        completed_at: None,
        move_count: 0,
    };
    let ghost g = game;
    state.game_counter = counter;
    state.total_games = total;
    ensure_player_stats(&mut state.player_stats, &info.sender);
    ensure_player_stats(&mut state.player_stats, &opponent);
    state.games.insert(game_id.clone(), game);
    proof {
        assert(state.games@[game_id@] == g);
    }
    match &state.config.escrow_contract {
        Some(addr) => Ok(Some(EscrowCall {
            contract_addr: addr.clone(),
            msg: EscrowExecuteMsg::CreateEscrow {
                game_id,
                player_a: info.sender.clone(),
                player_b: opponent,
                wager_amount,
            },
        })),
        None => Ok(None),
    }
}

pub open spec fn start_game_error(s: State, sender: Seq<char>, game_id: String) -> Option<ContractError> {
    if !is_reporter(s.config, sender) {
        Some(ContractError::Unauthorized {})
    } else if !s.games@.contains_key(game_id@) {
        Some(ContractError::GameNotFound { game_id })
    } else if s.games@[game_id@].status != GameStatus::Created {
        Some(ContractError::InvalidGameStatus { expected: "Created", got: s.games@[game_id@].status })
    } else {
        None
    }
}

/// The state with match `game_id` in progress, all else kept.
pub open spec fn started(s: State, s2: State, game_id: Seq<char>) -> bool {
    &&& s2.games@ == s.games@.insert(game_id, Game { status: GameStatus::InProgress, ..s.games@[game_id] })
    &&& s2.config == s.config
    &&& s2.player_stats == s.player_stats
    &&& s2.total_games == s.total_games
    &&& s2.game_counter == s.game_counter
}

/// Moves a created match to in progress.
pub fn execute_start_game(state: &mut State, info: &MessageInfo, game_id: String) -> (r: Result<(), ContractError>)
    requires
        old(state).wf(),
    ensures
        final(state).wf(),
        match start_game_error(*old(state), info.sender@, game_id) {
            Some(err) => r == Err::<(), ContractError>(err) && *final(state) == *old(state),
            None => r is Ok && started(*old(state), *final(state), game_id@),
        },
{
    if !is_authorized(&state.config, &info.sender) {
        return Err(ContractError::Unauthorized {});
    }
    let i = match state.games.find(&game_id) {
        Some(i) => i,
        None => {
            return Err(ContractError::GameNotFound { game_id });
        },
    };
    let g = state.games.value_at(i);
    if g.status != GameStatus::Created {
        return Err(ContractError::InvalidGameStatus { expected: "Created", got: g.status });
    }
    let in_progress = Game { status: GameStatus::InProgress, ..g.clone() };
    state.games.set_at(i, in_progress);
    Ok(())
}

/// Admin only: replaces the escrow service and the reporter when given.
pub fn execute_update_config(
    state: &mut State,
    info: &MessageInfo,
    escrow_contract: Option<String>,
    server_address: Option<String>,
) -> (r: Result<(), ContractError>)
    requires
        old(state).wf(),
    ensures
        final(state).wf(),
        info.sender@ != old(state).config.admin@ ==> r == Err::<(), ContractError>(ContractError::Unauthorized {})
            && *final(state) == *old(state),
        info.sender@ == old(state).config.admin@ ==> r is Ok && *final(state) == (State {
            config: Config {
                escrow_contract: if escrow_contract is Some { escrow_contract } else { old(state).config.escrow_contract },
                server_address: if server_address is Some { server_address } else { old(state).config.server_address },
                ..old(state).config
            },
            ..*old(state)
        }),
{
    if info.sender != state.config.admin {
        return Err(ContractError::Unauthorized {});
    }
    if let Some(addr) = escrow_contract {
        state.config.escrow_contract = Some(addr);
    }
    if let Some(addr) = server_address {
        state.config.server_address = Some(addr);
    }
    Ok(())
}

/// A new game service administered by `admin`, with no matches.
pub fn instantiate(admin: String, msg: InstantiateMsg) -> (r: State)
    ensures
        r.wf(),
        r.config == (Config {
            admin,
            escrow_contract: msg.escrow_contract,
            server_address: msg.server_address,
            usdc_denom: msg.usdc_denom,
        }),
        r.games@ == Map::<Seq<char>, Game>::empty(),
        r.player_stats@ == Map::<Seq<char>, PlayerStats>::empty(),
        r.total_games == 0,
        r.game_counter == 0,
{
    State {
        config: Config {
            admin,
            escrow_contract: msg.escrow_contract,
            server_address: msg.server_address,
            usdc_denom: msg.usdc_denom,
        },
        games: Table::new(),
        player_stats: Table::new(),
        total_games: 0,
        game_counter: 0,
    }
}


/// Whether `q` reports match `g`, its status and result category by name.
pub open spec fn reports_game(q: GameResponse, g: Game) -> bool {
    &&& q.game_id == g.game_id
    &&& q.player_a == g.player_a
    &&& q.player_b == g.player_b
    &&& q.wager_amount == g.wager_amount
    &&& q.status@ == game_status_label(g.status)@
    &&& q.winner == g.winner
    &&& match g.result_type {
        Some(t) => q.result_type matches Some(name) && name@ == result_type_label(t)@,
        None => q.result_type is None,
    }
    &&& q.created_at == g.created_at
    &&& q.completed_at == g.completed_at
    &&& q.move_count == g.move_count
}

pub fn game_response(g: &Game) -> (r: GameResponse)
    ensures
        reports_game(r, *g),
{
    let g = g.clone();
    GameResponse {
        game_id: g.game_id,
        player_a: g.player_a,
        player_b: g.player_b,
        wager_amount: g.wager_amount,
        status: String::from_str(g.status.label()),
        winner: g.winner,
        result_type: match g.result_type {
            Some(t) => Some(String::from_str(t.label())),
            None => None,
        },
        created_at: g.created_at,
        completed_at: g.completed_at,
        move_count: g.move_count,
    }
}

pub fn query_config(state: &State) -> (r: ConfigResponse)
    ensures
        r == (ConfigResponse {
            admin: state.config.admin,
            escrow_contract: state.config.escrow_contract,
            server_address: state.config.server_address,
            usdc_denom: state.config.usdc_denom,
        }),
{
    let c = state.config.clone();
    ConfigResponse {
        admin: c.admin,
        escrow_contract: c.escrow_contract,
        server_address: c.server_address,
        usdc_denom: c.usdc_denom,
    }
}

pub fn query_game(state: &State, game_id: String) -> (r: Result<GameResponse, ContractError>)
    requires
        state.wf(),
    ensures
        !state.games@.contains_key(game_id@) ==> r == Err::<GameResponse, ContractError>(ContractError::GameNotFound { game_id }),
        state.games@.contains_key(game_id@) ==> (r matches Ok(q) && reports_game(q, state.games@[game_id@])),
{
    match state.games.get(&game_id) {
        Some(g) => Ok(game_response(g)),
        None => Err(ContractError::GameNotFound { game_id }),
    }
}

/// The statistics reported for `address`: its own, or the defaults.
pub open spec fn stats_for(s: State, address: String) -> PlayerStats {
    if s.player_stats@.contains_key(address@) {
        s.player_stats@[address@]
    } else {
        default_stats(address)
    }
}

pub open spec fn stats_response(p: PlayerStats) -> PlayerStatsResponse {
    PlayerStatsResponse {
        address: p.address,
        games_played: p.games_played,
        games_won: p.games_won,
        rating: p.rating,
        total_wagered: p.total_wagered,
        total_won: p.total_won,
    }
}

/// A player's statistics; a player without any gets the defaults, not an error.
pub fn query_player_stats(state: &State, address: String) -> (r: PlayerStatsResponse)
    requires
        state.wf(),
    ensures
        r == stats_response(stats_for(*state, address)),
{
    let p = match state.player_stats.get(&address) {
        Some(p) => p.clone(),
        None => new_player_stats(address),
    };
    PlayerStatsResponse {
        address: p.address,
        games_played: p.games_played,
        games_won: p.games_won,
        rating: p.rating,
        total_wagered: p.total_wagered,
        total_won: p.total_won,
    }
}

pub fn query_stats(state: &State) -> (r: StatsResponse)
    ensures
        r == (StatsResponse { total_games: state.total_games }),
{
    StatsResponse { total_games: state.total_games }
}

/// The page size: 10 unless given, and at most 30.
pub open spec fn page_limit(limit: Option<u32>) -> nat {
    match limit {
        Some(l) => if l > 30 { 30 } else { l as nat },
        None => 10,
    }
}

/// Up to `limit` of the matches of `addr` among `games`, newest first.
pub open spec fn newest_games(games: Seq<Game>, addr: Seq<char>, limit: nat) -> Seq<Game>
    decreases games.len(),
{
    if games.len() == 0 || limit == 0 {
        seq![]
    } else if games.last().is_player(addr) {
        seq![games.last()] + newest_games(games.drop_last(), addr, (limit - 1) as nat)
    } else {
        newest_games(games.drop_last(), addr, limit)
    }
}

/// The matches that `address` played in, newest first, at most
/// `page_limit(limit)` of them. The cursor is accepted and not used.
pub fn query_player_games(state: &State, address: String, _start_after: Option<String>, limit: Option<u32>) -> (r: GamesListResponse)
    ensures
        ({
            let picked = newest_games(state.games.values(), address@, page_limit(limit));
            &&& r.games@.len() == picked.len()
            &&& forall|i: int| 0 <= i < picked.len() ==> reports_game(#[trigger] r.games@[i], picked[i])
        }),
{
    let max: usize = match limit {
        Some(l) => if l > 30 { 30 } else { l as usize },
        None => 10,
    };
    let ghost all = state.games.values();
    let ghost target = newest_games(all, address@, max as nat);
    let ghost mut picked: Seq<Game> = seq![];
    let mut games: Vec<GameResponse> = Vec::new();
    let mut i: usize = state.games.len();
    proof {
        assert(all.take(i as int) =~= all);
        assert(picked + newest_games(all, address@, max as nat) =~= target);
    }
    while i > 0 && games.len() < max
        invariant
            i <= state.games.entries@.len(),
            all == state.games.values(),
            all.len() == state.games.entries@.len(),
            games@.len() == picked.len() <= max,
            target == picked + newest_games(all.take(i as int), address@, (max - picked.len()) as nat),
            forall|j: int| 0 <= j < picked.len() ==> reports_game(#[trigger] games@[j], picked[j]),
        decreases i,
    {
        let g = state.games.value_at(i - 1);
        let ghost prefix = all.take(i as int);
        assert(prefix.last() == *g);
        assert(prefix.drop_last() =~= all.take(i - 1));
        if g.player_a == address || g.player_b == address {
            games.push(game_response(g));
            proof {
                let rest = newest_games(all.take(i - 1), address@, (max - picked.len() - 1) as nat);
                assert(target == picked + (seq![*g] + rest));
                assert(picked + (seq![*g] + rest) =~= picked.push(*g) + rest);
                picked = picked.push(*g);
            }
        }
        i = i - 1;
    }
    proof {
        assert(newest_games(all.take(i as int), address@, (max - picked.len()) as nat) =~= seq![]);
        assert(target =~= picked);
    }
    GamesListResponse { games }
}

/// Runs one execute message and returns the instruction for the escrow
/// service that the operation produced, if any.
pub fn execute(state: &mut State, env: &Env, info: &MessageInfo, msg: ExecuteMsg) -> (r: Result<Option<EscrowCall>, ContractError>)
    requires
        old(state).wf(),
    ensures
        final(state).wf(),
        r is Err ==> *final(state) == *old(state),
        match msg {
            ExecuteMsg::CreateGame { opponent, wager_amount } => match create_game_error(*old(state), info.sender@, opponent@) {
                Some(err) => r == Err::<Option<EscrowCall>, ContractError>(err),
                None => r matches Ok(call) && create_game_effect(*old(state), *final(state), *env, info.sender, opponent, wager_amount, call),
            },
            ExecuteMsg::StartGame { game_id } => match start_game_error(*old(state), info.sender@, game_id) {
                Some(err) => r == Err::<Option<EscrowCall>, ContractError>(err),
                None => r == Ok::<Option<EscrowCall>, ContractError>(None) && started(*old(state), *final(state), game_id@),
            },
            ExecuteMsg::ReportResult { game_id, winner, result_type, move_count } =>
                match report_result_error(*old(state), info.sender@, game_id, winner@, result_type) {
                    Some(err) => r == Err::<Option<EscrowCall>, ContractError>(err),
                    None => r matches Ok(call) && report_result_effect(*old(state), *final(state), *env, game_id, winner, result_type, move_count, call),
                },
            ExecuteMsg::ReportAbandonment { game_id, abandoner } =>
                match report_abandonment_error(*old(state), info.sender@, game_id, abandoner@) {
                    Some(err) => r == Err::<Option<EscrowCall>, ContractError>(err),
                    None => r matches Ok(call) && report_abandonment_effect(*old(state), *final(state), *env, game_id, abandoner@, call),
                },
            ExecuteMsg::UpdateConfig { escrow_contract, server_address } =>
                if info.sender@ != old(state).config.admin@ {
                    r == Err::<Option<EscrowCall>, ContractError>(ContractError::Unauthorized {})
                } else {
                    r == Ok::<Option<EscrowCall>, ContractError>(None) && *final(state) == (State {
                        config: Config {
                            escrow_contract: if escrow_contract is Some { escrow_contract } else { old(state).config.escrow_contract },
                            server_address: if server_address is Some { server_address } else { old(state).config.server_address },
                            ..old(state).config
                        },
                        ..*old(state)
                    })
                },
        },
{
    match msg {
        ExecuteMsg::CreateGame { opponent, wager_amount } => execute_create_game(state, env, info, opponent, wager_amount),
        ExecuteMsg::StartGame { game_id } => {
            execute_start_game(state, info, game_id)?;
            Ok(None)
        },
        ExecuteMsg::ReportResult { game_id, winner, result_type, move_count } =>
            execute_report_result(state, env, info, game_id, winner, result_type, move_count),
        ExecuteMsg::ReportAbandonment { game_id, abandoner } =>
            execute_report_abandonment(state, env, info, game_id, abandoner),
        ExecuteMsg::UpdateConfig { escrow_contract, server_address } => {
            execute_update_config(state, info, escrow_contract, server_address)?;
            Ok(None)
        },
    }
}

/// Answers one query; the only failure is an unknown match.
pub fn query(state: &State, msg: QueryMsg) -> (r: Result<QueryResponse, ContractError>)
    requires
        state.wf(),
    ensures
        match msg {
            QueryMsg::Game { game_id } => if state.games@.contains_key(game_id@) {
                r matches Ok(QueryResponse::Game(q)) && reports_game(q, state.games@[game_id@])
            } else {
                r == Err::<QueryResponse, ContractError>(ContractError::GameNotFound { game_id })
            },
            QueryMsg::PlayerStats { address } => r == Ok::<QueryResponse, ContractError>(
                QueryResponse::PlayerStats(stats_response(stats_for(*state, address)))),
            QueryMsg::Stats {} => r == Ok::<QueryResponse, ContractError>(
                QueryResponse::Stats(StatsResponse { total_games: state.total_games })),
            QueryMsg::Config {} => r == Ok::<QueryResponse, ContractError>(QueryResponse::Config(ConfigResponse {
                admin: state.config.admin,
                escrow_contract: state.config.escrow_contract,
                server_address: state.config.server_address,
                usdc_denom: state.config.usdc_denom,
            })),
            QueryMsg::PlayerGames { address, limit, .. } => r matches Ok(QueryResponse::PlayerGames(list)) && ({
                let picked = newest_games(state.games.values(), address@, page_limit(limit));
                &&& list.games@.len() == picked.len()
                &&& forall|i: int| 0 <= i < picked.len() ==> reports_game(#[trigger] list.games@[i], picked[i])
            }),
        },
{
    match msg {
        QueryMsg::Config {} => Ok(QueryResponse::Config(query_config(state))),
        QueryMsg::Game { game_id } => match query_game(state, game_id) {
            Ok(q) => Ok(QueryResponse::Game(q)),
            Err(e) => Err(e),
        },
        QueryMsg::PlayerStats { address } => Ok(QueryResponse::PlayerStats(query_player_stats(state, address))),
        QueryMsg::Stats {} => Ok(QueryResponse::Stats(query_stats(state))),
        QueryMsg::PlayerGames { address, start_after, limit } =>
            Ok(QueryResponse::PlayerGames(query_player_games(state, address, start_after, limit))),
    }
}

/// A migration keeps the state as it is.
pub fn migrate(state: &mut State, _msg: MigrateMsg) -> (r: Result<(), ContractError>)
    ensures
        r is Ok,
        *final(state) == *old(state),
{
    Ok(())
}


/// An abandonment takes the same path as a normal result won by the other
/// player: the same statistics and ratings, the same settlement instruction
/// (multiplier 1), the same match record but for its status.
pub proof fn lemma_abandonment_is_normal_result(
    s: State,
    s2: State,
    s3: State,
    env: Env,
    game_id: String,
    abandoner: Seq<char>,
    normal: String,
    c2: Option<EscrowCall>,
    c3: Option<EscrowCall>,
)
    requires
        s.wf(),
        s.games@.contains_key(game_id@),
        s.games@[game_id@].is_player(abandoner),
        normal@ == "normal"@,
        report_abandonment_effect(s, s2, env, game_id, abandoner, c2),
        report_result_effect(s, s3, env, game_id, other_player(s.games@[game_id@], abandoner),
            normal, s.games@[game_id@].move_count, c3),
    ensures
        s2.player_stats@ == s3.player_stats@,
        c2 == c3,
        s2.games@[game_id@] == (Game { status: GameStatus::Abandoned, ..s3.games@[game_id@] }),
        s3.games@[game_id@].result_type == Some(ResultType::Normal),
{
    reveal_strlit("normal");
    let g = s.games@[game_id@];
    assert(other_player(g, other_player(g, abandoner)@)@ == abandoner);
}

} // verus!
