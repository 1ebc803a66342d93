use vstd::prelude::*;

use crate::chain::{first_payment, find_payment, Env, MessageInfo, Transfer};
use crate::table::Table;
use super::error::ContractError;
use super::msg::{
    ConfigResponse, EscrowResponse, ExecuteMsg, InstantiateMsg, MigrateMsg, QueryMsg,
    QueryResponse, StatsResponse,
};
use super::state::{status_label, Config, Escrow, EscrowStatus, State};

verus! {

/// The denominator of a rake in basis points.
pub const BPS_DENOMINATOR: u128 = 10_000;

/// Whether `who` may create, settle and cancel escrows: the admin or the
/// configured game service.
pub open spec fn is_operator(c: Config, who: Seq<char>) -> bool {
    who == c.admin@ || (c.game_contract matches Some(g) && g@ == who)
}

pub open spec fn is_party(e: Escrow, who: Seq<char>) -> bool {
    who == e.player_a@ || who == e.player_b@
}

pub open spec fn has_deposited(e: Escrow, who: Seq<char>) -> bool {
    (who == e.player_a@ && e.player_a_deposited) || (who == e.player_b@ && e.player_b_deposited)
}

/// The sum of both stakes.
pub open spec fn pot_of(wager: u128) -> int {
    2 * wager
}

/// The platform's fee: the pot times the rake in basis points, rounded down.
pub open spec fn rake_of(wager: u128, rake_bps: u16) -> int {
    pot_of(wager) * rake_bps / 10_000
}

/// What the winner receives: the pot less the rake.
pub open spec fn payout_of(wager: u128, rake_bps: u16) -> int {
    pot_of(wager) - rake_of(wager, rake_bps)
}

/// Whether the pot fits a `u128` and the rake is at most the whole pot.
pub open spec fn split_fits(wager: u128, rake_bps: u16) -> bool {
    pot_of(wager) <= u128::MAX && rake_bps <= 10_000
}

/// A pot divided between the winner and the rake recipient.
#[derive(Debug)]
pub struct PotSplit {
    pub pot: u128,
    pub rake: u128,
    pub payout: u128,
}

/// Divides the pot of two stakes of `wager` between winner and platform,
/// exactly: the rake is rounded down and the remainder stays with the winner.
pub fn split_pot(wager: u128, rake_bps: u16) -> (r: Option<PotSplit>)
    ensures
        r is Some <==> split_fits(wager, rake_bps),
        r matches Some(s) ==> s.pot == pot_of(wager) && s.rake == rake_of(wager, rake_bps)
            && s.payout == payout_of(wager, rake_bps) && s.payout + s.rake == s.pot,
{
    if wager > u128::MAX / 2 || rake_bps > 10_000 {
        return None;
    }
    let pot: u128 = wager * 2;
    let bps = rake_bps as u128;
    // pot = q * 10000 + m, so pot * bps / 10000 = q * bps + m * bps / 10000,
    // computed without forming pot * bps.
    let q = pot / BPS_DENOMINATOR;
    let m = pot % BPS_DENOMINATOR;
    proof {
        assert(pot == q * 10_000 + m) by (nonlinear_arith)
            requires q == pot / 10_000, m == pot % 10_000;
        assert(q * bps <= q * 10_000) by (nonlinear_arith)
            requires bps <= 10_000, q >= 0;
        assert(m * bps < 10_000 * 10_001) by (nonlinear_arith)
            requires m < 10_000, bps <= 10_000;
        assert(pot * bps / 10_000 == q * bps + m * bps / 10_000) by (nonlinear_arith)
            requires pot == q * 10_000 + m, 0 <= m < 10_000, bps >= 0, q >= 0;
        assert(pot * bps / 10_000 <= pot) by (nonlinear_arith)
            requires bps <= 10_000, pot >= 0;
    }
    let rake: u128 = q * bps + m * bps / BPS_DENOMINATOR;
    Some(PotSplit { pot, rake, payout: pot - rake })
}

pub fn is_authorized(config: &Config, sender: &String) -> (r: bool)
    ensures
        r == is_operator(*config, sender@),
{
    if *sender == config.admin {
        return true;
    }
    match &config.game_contract {
        Some(g) => *sender == *g,
        None => false,
    }
}

/// The state after replacing the escrow `id`, all else kept.
pub open spec fn with_escrow(s: State, s2: State, id: Seq<char>, e: Escrow) -> bool {
    &&& s2.config == s.config
    &&& s2.escrows@ == s.escrows@.insert(id, e)
    &&& s2.total_rake_collected == s.total_rake_collected
    &&& s2.total_games_settled == s.total_games_settled
}

/// The escrow `e` closed with `status` at time `now`.
pub open spec fn closed(e: Escrow, status: EscrowStatus, now: u64) -> Escrow {
    Escrow { status, settled_at: Some(now), ..e }
}

pub open spec fn settle_error(s: State, env: Env, sender: Seq<char>, game_id: String, winner: Seq<char>) -> Option<ContractError> {
    if !is_operator(s.config, sender) {
        Some(ContractError::Unauthorized {})
    } else if !s.escrows@.contains_key(game_id@) {
        Some(ContractError::EscrowNotFound { game_id })
    } else {
        let e = s.escrows@[game_id@];
        if e.status != EscrowStatus::Active {
            Some(ContractError::InvalidEscrowStatus { expected: "Active", got: e.status })
        } else if !is_party(e, winner) {
            Some(ContractError::InvalidWinner {})
        } else if !split_fits(e.wager_amount, s.config.rake_bps) {
            Some(ContractError::Overflow {})
        } else if env.contract_balance < pot_of(e.wager_amount) {
            Some(ContractError::InsufficientBalance { needed: pot_of(e.wager_amount) as u128, available: env.contract_balance })
        } else {
            None
        }
    }
}

/// The payout to the winner, then the rake to the recipient when it is not zero.
pub open spec fn settle_transfers(c: Config, winner: String, wager: u128) -> Seq<Transfer> {
    let payout = Transfer { to_address: winner, denom: c.usdc_denom, amount: payout_of(wager, c.rake_bps) as u128 };
    let rake = rake_of(wager, c.rake_bps);
    if rake > 0 {
        seq![payout, Transfer { to_address: c.rake_recipient, denom: c.usdc_denom, amount: rake as u128 }]
    } else {
        seq![payout]
    }
}

/// Pays out an active escrow to its winner and closes it as settled.
pub fn execute_settle(
    state: &mut State,
    env: &Env,
    info: &MessageInfo,
    game_id: String,
    winner: String,
    _multiplier: u32,
) -> (r: Result<Vec<Transfer>, ContractError>)
    requires
        old(state).wf(),
    ensures
        final(state).wf(),
        match settle_error(*old(state), *env, info.sender@, game_id, winner@) {
            Some(err) => r == Err::<Vec<Transfer>, ContractError>(err) && *final(state) == *old(state),
            None => {
                let e = old(state).escrows@[game_id@];
                let rake = rake_of(e.wager_amount, old(state).config.rake_bps);
                &&& r matches Ok(t) && t@ == settle_transfers(old(state).config, winner, e.wager_amount)
                &&& final(state).config == old(state).config
                &&& final(state).escrows@ == old(state).escrows@.insert(game_id@, closed(e, EscrowStatus::Settled, env.block_time))
                &&& final(state).total_rake_collected == old(state).total_rake_collected.saturating_add(rake as u128)
                &&& final(state).total_games_settled == old(state).total_games_settled.saturating_add(1)
            },
        },
{
    if !is_authorized(&state.config, &info.sender) {
        return Err(ContractError::Unauthorized {});
    }
    let i = match state.escrows.find(&game_id) {
        Some(i) => i,
        None => {
            return Err(ContractError::EscrowNotFound { game_id });
        },
    };
    let e = state.escrows.value_at(i);
    if e.status != EscrowStatus::Active {
        return Err(ContractError::InvalidEscrowStatus { expected: "Active", got: e.status });
    }
    if winner != e.player_a && winner != e.player_b {
        return Err(ContractError::InvalidWinner {});
    }
    let split = match split_pot(e.wager_amount, state.config.rake_bps) {
        Some(s) => s,
        None => {
            return Err(ContractError::Overflow {});
        },
    };
    if env.contract_balance < split.pot {
        return Err(ContractError::InsufficientBalance { needed: split.pot, available: env.contract_balance });
    }
    // The totals are statistics: they saturate rather than hold up a payout.
    let total_rake = state.total_rake_collected.saturating_add(split.rake);
    let total_settled = state.total_games_settled.saturating_add(1);
    let ghost w = winner;
    let mut transfers: Vec<Transfer> = Vec::new();
    transfers.push(Transfer { to_address: winner, denom: state.config.usdc_denom.clone(), amount: split.payout });
    if split.rake > 0 {
        transfers.push(Transfer {
            to_address: state.config.rake_recipient.clone(),
            denom: state.config.usdc_denom.clone(),
            amount: split.rake,
        });
    }
    let settled = Escrow { status: EscrowStatus::Settled, settled_at: Some(env.block_time), ..e.clone() };
    state.escrows.set_at(i, settled);
    state.total_rake_collected = total_rake;
    state.total_games_settled = total_settled;
    proof {
        assert(transfers@ =~= settle_transfers(old(state).config, w, old(state).escrows@[game_id@].wager_amount));
    }
    Ok(transfers)
}


pub open spec fn deposit_error(s: State, info: MessageInfo, game_id: String) -> Option<ContractError> {
    if !s.escrows@.contains_key(game_id@) {
        Some(ContractError::EscrowNotFound { game_id })
    } else {
        let e = s.escrows@[game_id@];
        if e.status != EscrowStatus::AwaitingDeposits {
            Some(ContractError::InvalidEscrowStatus { expected: "AwaitingDeposits", got: e.status })
        } else if !is_party(e, info.sender@) {
            Some(ContractError::NotAPlayer {})
        } else if has_deposited(e, info.sender@) {
            Some(ContractError::AlreadyDeposited {})
        } else {
            match first_payment(info.funds@, s.config.usdc_denom@) {
                None => Some(ContractError::NoPayment {}),
                Some(p) => if p < e.wager_amount {
                    Some(ContractError::InvalidPayment { expected: e.wager_amount, received: p, denom: s.config.usdc_denom })
                } else {
                    None
                },
            }
        }
    }
}

/// The escrow after `who` has deposited: their flag set (player A's when both
/// names are `who`), and active once both flags are set.
pub open spec fn after_deposit(e: Escrow, who: Seq<char>) -> Escrow {
    let e1 = if who == e.player_a@ {
        Escrow { player_a_deposited: true, ..e }
    } else {
        Escrow { player_b_deposited: true, ..e }
    };
    if e1.player_a_deposited && e1.player_b_deposited {
        Escrow { status: EscrowStatus::Active, ..e1 }
    } else {
        e1
    }
}

/// Records the sender's stake; the escrow becomes active with the second one.
/// Returns the escrow's new status.
pub fn execute_deposit(state: &mut State, _env: &Env, info: &MessageInfo, game_id: String) -> (r: Result<EscrowStatus, ContractError>)
    requires
        old(state).wf(),
    ensures
        final(state).wf(),
        match deposit_error(*old(state), *info, game_id) {
            Some(err) => r == Err::<EscrowStatus, ContractError>(err) && *final(state) == *old(state),
            None => {
                let e2 = after_deposit(old(state).escrows@[game_id@], info.sender@);
                r == Ok::<EscrowStatus, ContractError>(e2.status) && with_escrow(*old(state), *final(state), game_id@, e2)
            },
        },
{
    let i = match state.escrows.find(&game_id) {
        Some(i) => i,
        None => {
            return Err(ContractError::EscrowNotFound { game_id });
        },
    };
    let e = state.escrows.value_at(i);
    if e.status != EscrowStatus::AwaitingDeposits {
        return Err(ContractError::InvalidEscrowStatus { expected: "AwaitingDeposits", got: e.status });
    }
    let is_player_a = info.sender == e.player_a;
    let is_player_b = info.sender == e.player_b;
    if !is_player_a && !is_player_b {
        return Err(ContractError::NotAPlayer {});
    }
    if (is_player_a && e.player_a_deposited) || (is_player_b && e.player_b_deposited) {
        return Err(ContractError::AlreadyDeposited {});
    }
    let paid = match find_payment(&info.funds, &state.config.usdc_denom) {
        Some(p) => p,
        None => {
            return Err(ContractError::NoPayment {});
        },
    };
    if paid < e.wager_amount {
        return Err(ContractError::InvalidPayment {
            expected: e.wager_amount,
            received: paid,
            denom: state.config.usdc_denom.clone(),
        });
    }
    let mut e2 = e.clone();
    if is_player_a {
        e2.player_a_deposited = true;
    } else {
        e2.player_b_deposited = true;
    }
    if e2.player_a_deposited && e2.player_b_deposited {
        e2.status = EscrowStatus::Active;
    }
    let status = e2.status;
    state.escrows.set_at(i, e2);
    Ok(status)
}

pub open spec fn cancel_error(s: State, sender: Seq<char>, game_id: String) -> Option<ContractError> {
    if !is_operator(s.config, sender) {
        Some(ContractError::Unauthorized {})
    } else if !s.escrows@.contains_key(game_id@) {
        Some(ContractError::EscrowNotFound { game_id })
    } else if !s.escrows@[game_id@].is_open() {
        Some(ContractError::InvalidEscrowStatus { expected: "AwaitingDeposits or Active", got: s.escrows@[game_id@].status })
    } else {
        None
    }
}

pub open spec fn refund(e: Escrow, to: String, c: Config) -> Transfer {
    Transfer { to_address: to, denom: c.usdc_denom, amount: e.wager_amount }
}

/// One refund of the stake to each player who deposited, player A first.
pub open spec fn cancel_refunds(e: Escrow, c: Config) -> Seq<Transfer> {
    let a = if e.player_a_deposited { seq![refund(e, e.player_a, c)] } else { seq![] };
    let b = if e.player_b_deposited { seq![refund(e, e.player_b, c)] } else { seq![] };
    a + b
}

/// Closes an open escrow and refunds every deposit made.
pub fn execute_cancel(state: &mut State, env: &Env, info: &MessageInfo, game_id: String) -> (r: Result<Vec<Transfer>, ContractError>)
    requires
        old(state).wf(),
    ensures
        final(state).wf(),
        match cancel_error(*old(state), info.sender@, game_id) {
            Some(err) => r == Err::<Vec<Transfer>, ContractError>(err) && *final(state) == *old(state),
            None => {
                let e = old(state).escrows@[game_id@];
                &&& r matches Ok(t) && t@ == cancel_refunds(e, old(state).config)
                &&& with_escrow(*old(state), *final(state), game_id@, closed(e, EscrowStatus::Cancelled, env.block_time))
            },
        },
{
    if !is_authorized(&state.config, &info.sender) {
        return Err(ContractError::Unauthorized {});
    }
    let i = match state.escrows.find(&game_id) {
        Some(i) => i,
        None => {
            return Err(ContractError::EscrowNotFound { game_id });
        },
    };
    let e = state.escrows.value_at(i);
    if e.status != EscrowStatus::AwaitingDeposits && e.status != EscrowStatus::Active {
        return Err(ContractError::InvalidEscrowStatus { expected: "AwaitingDeposits or Active", got: e.status });
    }
    let mut refunds: Vec<Transfer> = Vec::new();
    if e.player_a_deposited {
        refunds.push(Transfer { to_address: e.player_a.clone(), denom: state.config.usdc_denom.clone(), amount: e.wager_amount });
    }
    if e.player_b_deposited {
        refunds.push(Transfer { to_address: e.player_b.clone(), denom: state.config.usdc_denom.clone(), amount: e.wager_amount });
    }
    proof {
        assert(refunds@ =~= cancel_refunds(*e, state.config));
    }
    let cancelled = Escrow { status: EscrowStatus::Cancelled, settled_at: Some(env.block_time), ..e.clone() };
    state.escrows.set_at(i, cancelled);
    Ok(refunds)
}

pub open spec fn claim_timeout_error(s: State, env: Env, sender: Seq<char>, game_id: String) -> Option<ContractError> {
    if !s.escrows@.contains_key(game_id@) {
        Some(ContractError::EscrowNotFound { game_id })
    } else {
        let e = s.escrows@[game_id@];
        let elapsed = env.block_time - e.created_at;
        if e.status != EscrowStatus::AwaitingDeposits {
            Some(ContractError::InvalidEscrowStatus { expected: "AwaitingDeposits", got: e.status })
        } else if !is_party(e, sender) {
            Some(ContractError::NotAPlayer {})
        } else if !has_deposited(e, sender) {
            Some(ContractError::Unauthorized {})
        } else if elapsed < s.config.timeout_seconds {
            Some(ContractError::TimeoutNotReached { remaining: (s.config.timeout_seconds - elapsed) as u64 })
        } else {
            None
        }
    }
}

/// A depositor whose opponent has not deposited reclaims the stake once the
/// timeout has passed since creation; the escrow closes as timed out.
/// The block time is never earlier than the escrow's creation.
pub fn execute_claim_timeout(state: &mut State, env: &Env, info: &MessageInfo, game_id: String) -> (r: Result<Transfer, ContractError>)
    requires
        old(state).wf(),
        old(state).escrows@.contains_key(game_id@) ==> old(state).escrows@[game_id@].created_at <= env.block_time,
    ensures
        final(state).wf(),
        match claim_timeout_error(*old(state), *env, info.sender@, game_id) {
            Some(err) => r == Err::<Transfer, ContractError>(err) && *final(state) == *old(state),
            None => {
                let e = old(state).escrows@[game_id@];
                &&& r == Ok::<Transfer, ContractError>(refund(e, info.sender, old(state).config))
                &&& with_escrow(*old(state), *final(state), game_id@, closed(e, EscrowStatus::TimedOut, env.block_time))
            },
        },
{
    let i = match state.escrows.find(&game_id) {
        Some(i) => i,
        None => {
            return Err(ContractError::EscrowNotFound { game_id });
        },
    };
    let e = state.escrows.value_at(i);
    if e.status != EscrowStatus::AwaitingDeposits {
        return Err(ContractError::InvalidEscrowStatus { expected: "AwaitingDeposits", got: e.status });
    }
    let is_player_a = info.sender == e.player_a;
    let is_player_b = info.sender == e.player_b;
    if !is_player_a && !is_player_b {
        return Err(ContractError::NotAPlayer {});
    }
    let caller_deposited = (is_player_a && e.player_a_deposited) || (is_player_b && e.player_b_deposited);
    if !caller_deposited {
        return Err(ContractError::Unauthorized {});
    }
    let elapsed = env.block_time - e.created_at;
    if elapsed < state.config.timeout_seconds {
        return Err(ContractError::TimeoutNotReached { remaining: state.config.timeout_seconds - elapsed });
    }
    let payback = Transfer { to_address: info.sender.clone(), denom: state.config.usdc_denom.clone(), amount: e.wager_amount };
    let timed_out = Escrow { status: EscrowStatus::TimedOut, settled_at: Some(env.block_time), ..e.clone() };
    state.escrows.set_at(i, timed_out);
    Ok(payback)
}

pub open spec fn create_escrow_error(s: State, sender: Seq<char>, game_id: String, wager_amount: u128) -> Option<ContractError> {
    if !is_operator(s.config, sender) {
        Some(ContractError::Unauthorized {})
    } else if s.escrows@.contains_key(game_id@) {
        Some(ContractError::EscrowAlreadyExists { game_id })
    } else if wager_amount < s.config.min_wager || wager_amount > s.config.max_wager {
        Some(ContractError::InvalidWager { amount: wager_amount, min: s.config.min_wager, max: s.config.max_wager })
    } else {
        None
    }
}

/// A fresh escrow: nothing deposited yet.
pub open spec fn new_escrow(game_id: String, player_a: String, player_b: String, wager_amount: u128, now: u64) -> Escrow {
    Escrow {
        game_id,
        player_a,
        player_b,
        wager_amount,
        player_a_deposited: false,
        player_b_deposited: false,
        status: EscrowStatus::AwaitingDeposits,
        created_at: now,
        settled_at: None,
    }
}

/// Opens an escrow for a new match, awaiting both deposits.
pub fn execute_create_escrow(
    state: &mut State,
    env: &Env,
    info: &MessageInfo,
    game_id: String,
    player_a: String,
    player_b: String,
    wager_amount: u128,
) -> (r: Result<(), ContractError>)
    requires
        old(state).wf(),
    ensures
        final(state).wf(),
        match create_escrow_error(*old(state), info.sender@, game_id, wager_amount) {
            Some(err) => r == Err::<(), ContractError>(err) && *final(state) == *old(state),
            None => r is Ok && with_escrow(*old(state), *final(state), game_id@,
                new_escrow(game_id, player_a, player_b, wager_amount, env.block_time)),
        },
{
    if !is_authorized(&state.config, &info.sender) {
        return Err(ContractError::Unauthorized {});
    }
    if state.escrows.contains(&game_id) {
        return Err(ContractError::EscrowAlreadyExists { game_id });
    }
    if wager_amount < state.config.min_wager || wager_amount > state.config.max_wager {
        return Err(ContractError::InvalidWager {
            amount: wager_amount,
            min: state.config.min_wager,
            max: state.config.max_wager,
        });
    }
    let key = game_id.clone();
    let escrow = Escrow {
        game_id,
        player_a,
        player_b,
        wager_amount,
        player_a_deposited: false,
        player_b_deposited: false,
        status: EscrowStatus::AwaitingDeposits,
        created_at: env.block_time,
        settled_at: None,
    };
    state.escrows.insert(key, escrow);
    Ok(())
}


/// The configuration with each given field replaced.
pub open spec fn updated_config(
    c: Config,
    game_contract: Option<String>,
    rake_bps: Option<u16>,
    rake_recipient: Option<String>,
    min_wager: Option<u128>,
    max_wager: Option<u128>,
    timeout_seconds: Option<u64>,
) -> Config {
    Config {
        game_contract: if game_contract is Some { game_contract } else { c.game_contract },
        rake_bps: match rake_bps { Some(v) => v, None => c.rake_bps },
        rake_recipient: match rake_recipient { Some(v) => v, None => c.rake_recipient },
        min_wager: match min_wager { Some(v) => v, None => c.min_wager },
        max_wager: match max_wager { Some(v) => v, None => c.max_wager },
        timeout_seconds: match timeout_seconds { Some(v) => v, None => c.timeout_seconds },
        ..c
    }
}

/// Admin only: replaces each configuration field that is given.
pub fn execute_update_config(
    state: &mut State,
    info: &MessageInfo,
    game_contract: Option<String>,
    rake_bps: Option<u16>,
    rake_recipient: Option<String>,
    min_wager: Option<u128>,
    max_wager: Option<u128>,
    timeout_seconds: Option<u64>,
) -> (r: Result<(), ContractError>)
    requires
        old(state).wf(),
    ensures
        final(state).wf(),
        info.sender@ != old(state).config.admin@ ==> r == Err::<(), ContractError>(ContractError::Unauthorized {})
            && *final(state) == *old(state),
        info.sender@ == old(state).config.admin@ ==> r is Ok && *final(state) == (State {
            config: updated_config(old(state).config, game_contract, rake_bps, rake_recipient, min_wager, max_wager, timeout_seconds),
            ..*old(state)
        }),
{
    if info.sender != state.config.admin {
        return Err(ContractError::Unauthorized {});
    }
    if let Some(addr) = game_contract {
        state.config.game_contract = Some(addr);
    }
    if let Some(bps) = rake_bps {
        state.config.rake_bps = bps;
    }
    if let Some(addr) = rake_recipient {
        state.config.rake_recipient = addr;
    }
    if let Some(min) = min_wager {
        state.config.min_wager = min;
    }
    if let Some(max) = max_wager {
        state.config.max_wager = max;
    }
    if let Some(timeout) = timeout_seconds {
        state.config.timeout_seconds = timeout;
    }
    Ok(())
}

/// A new escrow service administered by `admin`, with no escrows and zero totals.
pub fn instantiate(admin: String, msg: InstantiateMsg) -> (r: State)
    ensures
        r.wf(),
        r.config == (Config {
            admin,
            game_contract: msg.game_contract,
            usdc_denom: msg.usdc_denom,
            rake_bps: msg.rake_bps,
            rake_recipient: msg.rake_recipient,
            min_wager: msg.min_wager,
            max_wager: msg.max_wager,
            timeout_seconds: msg.timeout_seconds,
        }),
        r.escrows@ == Map::<Seq<char>, Escrow>::empty(),
        r.total_rake_collected == 0,
        r.total_games_settled == 0,
{
    State {
        config: Config {
            admin,
            game_contract: msg.game_contract,
            usdc_denom: msg.usdc_denom,
            rake_bps: msg.rake_bps,
            rake_recipient: msg.rake_recipient,
            min_wager: msg.min_wager,
            max_wager: msg.max_wager,
            timeout_seconds: msg.timeout_seconds,
        },
        escrows: Table::new(),
        total_rake_collected: 0,
        total_games_settled: 0,
    }
}

/// Runs one execute message. The transfers that it returns are those of the
/// operation that the message names (none for create, deposit and update).
pub fn execute(state: &mut State, env: &Env, info: &MessageInfo, msg: ExecuteMsg) -> (r: Result<Vec<Transfer>, ContractError>)
    requires
        old(state).wf(),
        msg matches ExecuteMsg::ClaimTimeout { game_id } ==> (old(state).escrows@.contains_key(game_id@)
            ==> old(state).escrows@[game_id@].created_at <= env.block_time),
    ensures
        final(state).wf(),
        r is Err ==> *final(state) == *old(state),
        match msg {
            ExecuteMsg::CreateEscrow { game_id, player_a, player_b, wager_amount } =>
                match create_escrow_error(*old(state), info.sender@, game_id, wager_amount) {
                    Some(err) => r == Err::<Vec<Transfer>, ContractError>(err),
                    None => r matches Ok(t) && t@.len() == 0 && with_escrow(*old(state), *final(state), game_id@,
                        new_escrow(game_id, player_a, player_b, wager_amount, env.block_time)),
                },
            ExecuteMsg::Deposit { game_id } => match deposit_error(*old(state), *info, game_id) {
                Some(err) => r == Err::<Vec<Transfer>, ContractError>(err),
                None => r matches Ok(t) && t@.len() == 0 && with_escrow(*old(state), *final(state), game_id@,
                    after_deposit(old(state).escrows@[game_id@], info.sender@)),
            },
            ExecuteMsg::Settle { game_id, winner } | ExecuteMsg::SettleWithMultiplier { game_id, winner, .. } =>
                match settle_error(*old(state), *env, info.sender@, game_id, winner@) {
                    Some(err) => r == Err::<Vec<Transfer>, ContractError>(err),
                    None => {
                        let e = old(state).escrows@[game_id@];
                        &&& r matches Ok(t) && t@ == settle_transfers(old(state).config, winner, e.wager_amount)
                        &&& final(state).escrows@ == old(state).escrows@.insert(game_id@, closed(e, EscrowStatus::Settled, env.block_time))
                        &&& final(state).total_rake_collected == old(state).total_rake_collected.saturating_add(rake_of(e.wager_amount, old(state).config.rake_bps) as u128)
                        &&& final(state).total_games_settled == old(state).total_games_settled.saturating_add(1)
                    },
                },
            ExecuteMsg::Cancel { game_id } => match cancel_error(*old(state), info.sender@, game_id) {
                Some(err) => r == Err::<Vec<Transfer>, ContractError>(err),
                None => r matches Ok(t) && t@ == cancel_refunds(old(state).escrows@[game_id@], old(state).config)
                    && with_escrow(*old(state), *final(state), game_id@, closed(old(state).escrows@[game_id@], EscrowStatus::Cancelled, env.block_time)),
            },
            ExecuteMsg::ClaimTimeout { game_id } => match claim_timeout_error(*old(state), *env, info.sender@, game_id) {
                Some(err) => r == Err::<Vec<Transfer>, ContractError>(err),
                None => r matches Ok(t) && t@ == seq![refund(old(state).escrows@[game_id@], info.sender, old(state).config)]
                    && with_escrow(*old(state), *final(state), game_id@, closed(old(state).escrows@[game_id@], EscrowStatus::TimedOut, env.block_time)),
            },
            ExecuteMsg::UpdateConfig { game_contract, rake_bps, rake_recipient, min_wager, max_wager, timeout_seconds } =>
                if info.sender@ != old(state).config.admin@ {
                    r == Err::<Vec<Transfer>, ContractError>(ContractError::Unauthorized {})
                } else {
                    r matches Ok(t) && t@.len() == 0 && *final(state) == (State {
                        config: updated_config(old(state).config, game_contract, rake_bps, rake_recipient, min_wager, max_wager, timeout_seconds),
                        ..*old(state)
                    })
                },
        },
{
    match msg {
        ExecuteMsg::CreateEscrow { game_id, player_a, player_b, wager_amount } => {
            execute_create_escrow(state, env, info, game_id, player_a, player_b, wager_amount)?;
            Ok(Vec::new())
        },
        ExecuteMsg::Deposit { game_id } => {
            execute_deposit(state, env, info, game_id)?;
            Ok(Vec::new())
        },
        ExecuteMsg::Settle { game_id, winner } => execute_settle(state, env, info, game_id, winner, 1),
        ExecuteMsg::SettleWithMultiplier { game_id, winner, multiplier } =>
            execute_settle(state, env, info, game_id, winner, multiplier),
        ExecuteMsg::Cancel { game_id } => execute_cancel(state, env, info, game_id),
        ExecuteMsg::ClaimTimeout { game_id } => {
            let t = execute_claim_timeout(state, env, info, game_id)?;
            let mut v: Vec<Transfer> = Vec::new();
            v.push(t);
            Ok(v)
        },
        ExecuteMsg::UpdateConfig { game_contract, rake_bps, rake_recipient, min_wager, max_wager, timeout_seconds } => {
            execute_update_config(state, info, game_contract, rake_bps, rake_recipient, min_wager, max_wager, timeout_seconds)?;
            Ok(Vec::new())
        },
    }
}

pub fn query_config(state: &State) -> (r: ConfigResponse)
    ensures
        r == query_config_spec(*state),
{
    let c = state.config.clone();
    ConfigResponse {
        admin: c.admin,
        game_contract: c.game_contract,
        usdc_denom: c.usdc_denom,
        rake_bps: c.rake_bps,
        rake_recipient: c.rake_recipient,
        min_wager: c.min_wager,
        max_wager: c.max_wager,
        timeout_seconds: c.timeout_seconds,
    }
}

/// Whether `q` reports escrow `e`, its status by name.
pub open spec fn reports_escrow(q: EscrowResponse, e: Escrow) -> bool {
    q == (EscrowResponse {
        game_id: e.game_id,
        player_a: e.player_a,
        player_b: e.player_b,
        wager_amount: e.wager_amount,
        player_a_deposited: e.player_a_deposited,
        player_b_deposited: e.player_b_deposited,
        status: q.status,
        created_at: e.created_at,
        settled_at: e.settled_at,
    }) && q.status@ == status_label(e.status)@
}

/// The escrow of `game_id`, its status by name.
pub fn query_escrow(state: &State, game_id: String) -> (r: Result<EscrowResponse, ContractError>)
    requires
        state.wf(),
    ensures
        !state.escrows@.contains_key(game_id@) ==> r == Err::<EscrowResponse, ContractError>(ContractError::EscrowNotFound { game_id }),
        state.escrows@.contains_key(game_id@) ==> {
            let e = state.escrows@[game_id@];
            r matches Ok(q) && reports_escrow(q, e)
        },
{
    match state.escrows.get(&game_id) {
        None => Err(ContractError::EscrowNotFound { game_id }),
        Some(e) => {
            let e = e.clone();
            Ok(EscrowResponse {
                game_id: e.game_id,
                player_a: e.player_a,
                player_b: e.player_b,
                wager_amount: e.wager_amount,
                player_a_deposited: e.player_a_deposited,
                player_b_deposited: e.player_b_deposited,
                status: String::from_str(e.status.label()),
                created_at: e.created_at,
                settled_at: e.settled_at,
            })
        },
    }
}

pub fn query_stats(state: &State) -> (r: StatsResponse)
    ensures
        r == (StatsResponse {
            total_rake_collected: state.total_rake_collected,
            total_games_settled: state.total_games_settled,
        }),
{
    StatsResponse {
        total_rake_collected: state.total_rake_collected,
        total_games_settled: state.total_games_settled,
    }
}

/// Answers one query; the only failure is an unknown escrow.
pub fn query(state: &State, msg: QueryMsg) -> (r: Result<QueryResponse, ContractError>)
    requires
        state.wf(),
    ensures
        match msg {
            QueryMsg::Config {} => r == Ok::<QueryResponse, ContractError>(QueryResponse::Config(query_config_spec(*state))),
            QueryMsg::Escrow { game_id } => if state.escrows@.contains_key(game_id@) {
                r matches Ok(QueryResponse::Escrow(q)) && reports_escrow(q, state.escrows@[game_id@])
            } else {
                r == Err::<QueryResponse, ContractError>(ContractError::EscrowNotFound { game_id })
            },
            QueryMsg::Stats {} => r == Ok::<QueryResponse, ContractError>(QueryResponse::Stats(StatsResponse {
                total_rake_collected: state.total_rake_collected,
                total_games_settled: state.total_games_settled,
            })),
        },
{
    match msg {
        QueryMsg::Config {} => Ok(QueryResponse::Config(query_config(state))),
        QueryMsg::Escrow { game_id } => match query_escrow(state, game_id) {
            Ok(q) => Ok(QueryResponse::Escrow(q)),
            Err(e) => Err(e),
        },
        QueryMsg::Stats {} => Ok(QueryResponse::Stats(query_stats(state))),
    }
}

pub open spec fn query_config_spec(s: State) -> ConfigResponse {
    ConfigResponse {
        admin: s.config.admin,
        game_contract: s.config.game_contract,
        usdc_denom: s.config.usdc_denom,
        rake_bps: s.config.rake_bps,
        rake_recipient: s.config.rake_recipient,
        min_wager: s.config.min_wager,
        max_wager: s.config.max_wager,
        timeout_seconds: s.config.timeout_seconds,
    }
}

/// A migration keeps the state as it is.
pub fn migrate(state: &mut State, _msg: MigrateMsg) -> (r: Result<(), ContractError>)
    ensures
        r is Ok,
        *final(state) == *old(state),
{
    Ok(())
}


/// The changes that an operation may make to one escrow: a deposit while
/// awaiting deposits, settlement of an active escrow, cancellation of an open
/// one, and a timeout claim while awaiting deposits.
pub open spec fn escrow_step(e: Escrow, e2: Escrow) -> bool {
    ||| e.status == EscrowStatus::AwaitingDeposits && exists|who: Seq<char>| e2 == #[trigger] after_deposit(e, who)
    ||| e.status == EscrowStatus::Active && exists|t: u64| e2 == #[trigger] closed(e, EscrowStatus::Settled, t)
    ||| e.is_open() && exists|t: u64| e2 == #[trigger] closed(e, EscrowStatus::Cancelled, t)
    ||| e.status == EscrowStatus::AwaitingDeposits && exists|t: u64| e2 == #[trigger] closed(e, EscrowStatus::TimedOut, t)
}

/// Every successful operation on an existing escrow changes it by one
/// permitted step.
pub proof fn lemma_operations_are_steps(s: State, env: Env, info: MessageInfo, game_id: String, winner: String)
    requires
        s.wf(),
        s.escrows@.contains_key(game_id@),
    ensures
        deposit_error(s, info, game_id) is None ==> escrow_step(s.escrows@[game_id@], after_deposit(s.escrows@[game_id@], info.sender@)),
        settle_error(s, env, info.sender@, game_id, winner@) is None ==> escrow_step(s.escrows@[game_id@], closed(s.escrows@[game_id@], EscrowStatus::Settled, env.block_time)),
        cancel_error(s, info.sender@, game_id) is None ==> escrow_step(s.escrows@[game_id@], closed(s.escrows@[game_id@], EscrowStatus::Cancelled, env.block_time)),
        claim_timeout_error(s, env, info.sender@, game_id) is None ==> escrow_step(s.escrows@[game_id@], closed(s.escrows@[game_id@], EscrowStatus::TimedOut, env.block_time)),
{
    let e = s.escrows@[game_id@];
    let t = env.block_time;
    assert(after_deposit(e, info.sender@) == after_deposit(e, info.sender@));
    assert(closed(e, EscrowStatus::Settled, t) == closed(e, EscrowStatus::Settled, t));
    assert(closed(e, EscrowStatus::Cancelled, t) == closed(e, EscrowStatus::Cancelled, t));
    assert(closed(e, EscrowStatus::TimedOut, t) == closed(e, EscrowStatus::TimedOut, t));
}

/// An escrow reaches `Settled` only along AwaitingDeposits, Active, Settled:
/// in any run of permitted steps from a fresh escrow, the record just before a
/// settled one is active, and the one before that awaits deposits.
pub proof fn lemma_settled_only_via_active(trace: Seq<Escrow>, j: int)
    requires
        trace.len() > 0,
        trace[0].status == EscrowStatus::AwaitingDeposits,
        forall|i: int| 0 <= i < trace.len() - 1 ==> escrow_step(#[trigger] trace[i], trace[i + 1]),
        0 <= j < trace.len(),
        trace[j].status == EscrowStatus::Settled,
    ensures
        j >= 2,
        trace[j - 1].status == EscrowStatus::Active,
        trace[j - 2].status == EscrowStatus::AwaitingDeposits,
{
    assert(escrow_step(trace[j - 1], trace[j]));
    let e = trace[j - 1];
    if e.status == EscrowStatus::AwaitingDeposits && exists|who: Seq<char>| trace[j] == #[trigger] after_deposit(e, who) {
        let who = choose|who: Seq<char>| trace[j] == #[trigger] after_deposit(e, who);
        assert(after_deposit(e, who).status != EscrowStatus::Settled);
    }
    assert(e.status == EscrowStatus::Active);
    assert(escrow_step(trace[j - 2], trace[j - 1]));
    let d = trace[j - 2];
    if exists|t: u64| e == #[trigger] closed(d, EscrowStatus::Settled, t) {
        let t = choose|t: u64| e == #[trigger] closed(d, EscrowStatus::Settled, t);
        assert(closed(d, EscrowStatus::Settled, t).status == EscrowStatus::Settled);
    }
    if exists|t: u64| e == #[trigger] closed(d, EscrowStatus::Cancelled, t) {
        let t = choose|t: u64| e == #[trigger] closed(d, EscrowStatus::Cancelled, t);
        assert(closed(d, EscrowStatus::Cancelled, t).status == EscrowStatus::Cancelled);
    }
    if exists|t: u64| e == #[trigger] closed(d, EscrowStatus::TimedOut, t) {
        let t = choose|t: u64| e == #[trigger] closed(d, EscrowStatus::TimedOut, t);
        assert(closed(d, EscrowStatus::TimedOut, t).status == EscrowStatus::TimedOut);
    }
}

/// Settlement loses nothing: payout and rake add up to the pot of two
/// stakes, and the rake, rounded down, never exceeds the pot.
pub proof fn lemma_split_conserves_pot(wager: u128, rake_bps: u16)
    requires
        split_fits(wager, rake_bps),
    ensures
        payout_of(wager, rake_bps) + rake_of(wager, rake_bps) == 2 * wager,
        0 <= rake_of(wager, rake_bps) <= pot_of(wager),
        rake_of(wager, rake_bps) * 10_000 <= pot_of(wager) * rake_bps < (rake_of(wager, rake_bps) + 1) * 10_000,
{
    let pot = pot_of(wager);
    let b = rake_bps as int;
    assert(0 <= pot * b / 10_000 <= pot) by (nonlinear_arith)
        requires 0 <= b <= 10_000, pot >= 0;
    assert((pot * b / 10_000) * 10_000 <= pot * b < (pot * b / 10_000 + 1) * 10_000) by (nonlinear_arith)
        requires pot >= 0, b >= 0;
}


/// Deposits: nobody outside the two players ever deposits, and nobody
/// deposits twice: after a successful deposit, a second one by the same
/// sender fails, with `AlreadyDeposited` while the escrow still awaits the
/// other stake.
pub proof fn lemma_deposit_once(s: State, s2: State, info: MessageInfo, again: MessageInfo, game_id: String)
    requires
        s.wf(),
        again.sender@ == info.sender@,
    ensures
        s.escrows@.contains_key(game_id@) && !is_party(s.escrows@[game_id@], info.sender@)
            ==> deposit_error(s, info, game_id) is Some,
        s.escrows@.contains_key(game_id@) && s.escrows@[game_id@].status == EscrowStatus::AwaitingDeposits
            && !is_party(s.escrows@[game_id@], info.sender@)
            ==> deposit_error(s, info, game_id) == Some(ContractError::NotAPlayer {}),
        deposit_error(s, info, game_id) is None
            && with_escrow(s, s2, game_id@, after_deposit(s.escrows@[game_id@], info.sender@))
            ==> deposit_error(s2, again, game_id) is Some,
        deposit_error(s, info, game_id) is None
            && with_escrow(s, s2, game_id@, after_deposit(s.escrows@[game_id@], info.sender@))
            && s2.escrows@[game_id@].status == EscrowStatus::AwaitingDeposits
            ==> deposit_error(s2, again, game_id) == Some(ContractError::AlreadyDeposited {}),
{
}

/// The timeout boundary: a depositor awaiting the other stake is refused
/// with exactly the seconds still to wait before `timeout_seconds` have
/// passed since creation, and succeeds from that moment on.
pub proof fn lemma_timeout_boundary(s: State, env: Env, sender: Seq<char>, game_id: String)
    requires
        s.wf(),
        s.escrows@.contains_key(game_id@),
        s.escrows@[game_id@].status == EscrowStatus::AwaitingDeposits,
        has_deposited(s.escrows@[game_id@], sender),
        s.escrows@[game_id@].created_at <= env.block_time,
    ensures
        ({
            let elapsed = env.block_time - s.escrows@[game_id@].created_at;
            &&& elapsed < s.config.timeout_seconds ==> claim_timeout_error(s, env, sender, game_id)
                == Some(ContractError::TimeoutNotReached { remaining: (s.config.timeout_seconds - elapsed) as u64 })
            &&& elapsed >= s.config.timeout_seconds ==> claim_timeout_error(s, env, sender, game_id) is None
        }),
{
}


/// What no step changes: the players, the stake and the creation time stay,
/// a deposit flag once set stays set, and a closed escrow takes no further
/// step.
pub proof fn lemma_step_preserves_record(e: Escrow, e2: Escrow)
    requires
        escrow_step(e, e2),
    ensures
        e.is_open(),
        e2.game_id == e.game_id,
        e2.player_a == e.player_a,
        e2.player_b == e.player_b,
        e2.wager_amount == e.wager_amount,
        e2.created_at == e.created_at,
        e.player_a_deposited ==> e2.player_a_deposited,
        e.player_b_deposited ==> e2.player_b_deposited,
{
    if e.status == EscrowStatus::AwaitingDeposits && exists|who: Seq<char>| e2 == #[trigger] after_deposit(e, who) {
        let who = choose|who: Seq<char>| e2 == #[trigger] after_deposit(e, who);
        assert(e2 == after_deposit(e, who));
    } else if e.status == EscrowStatus::Active && exists|t: u64| e2 == #[trigger] closed(e, EscrowStatus::Settled, t) {
        let t = choose|t: u64| e2 == #[trigger] closed(e, EscrowStatus::Settled, t);
        assert(e2 == closed(e, EscrowStatus::Settled, t));
    } else if e.is_open() && exists|t: u64| e2 == #[trigger] closed(e, EscrowStatus::Cancelled, t) {
        let t = choose|t: u64| e2 == #[trigger] closed(e, EscrowStatus::Cancelled, t);
        assert(e2 == closed(e, EscrowStatus::Cancelled, t));
    } else {
        let t = choose|t: u64| e2 == #[trigger] closed(e, EscrowStatus::TimedOut, t);
        assert(e2 == closed(e, EscrowStatus::TimedOut, t));
    }
}

} // verus!
