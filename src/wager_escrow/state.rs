use vstd::prelude::*;

use crate::chain::clone_opt;
use crate::table::Table;

verus! {

#[derive(Debug)]
pub struct Config {
    pub admin: String,
    /// The game service, which may create, settle and cancel escrows.
    pub game_contract: Option<String>,
    /// The denomination in which stakes are paid.
    pub usdc_denom: String,
    /// Rake in basis points (250 = 2.5%).
    pub rake_bps: u16,
    /// Receives the rake.
    pub rake_recipient: String,
    pub min_wager: u128,
    pub max_wager: u128,
    /// Seconds after creation from which a depositor may reclaim a stake.
    pub timeout_seconds: u64,
}

impl Clone for Config {
    fn clone(&self) -> (r: Self)
        ensures
            r == *self,
    {
        Config {
            admin: self.admin.clone(),
            game_contract: clone_opt(&self.game_contract),
            usdc_denom: self.usdc_denom.clone(),
            rake_bps: self.rake_bps,
            rake_recipient: self.rake_recipient.clone(),
            min_wager: self.min_wager,
            max_wager: self.max_wager,
            timeout_seconds: self.timeout_seconds,
        }
    }
}

#[derive(Clone, Copy, Debug, PartialEq, Eq, Structural)]
pub enum EscrowStatus {
    /// Waiting for both players to deposit.
    AwaitingDeposits,
    /// Both deposited, game in progress.
    Active,
    /// Winner has been paid.
    Settled,
    /// Deposits refunded.
    Cancelled,
    /// The depositor reclaimed the stake after the timeout.
    TimedOut,
}

pub open spec fn status_label(s: EscrowStatus) -> &'static str {
    match s {
        EscrowStatus::AwaitingDeposits => "AwaitingDeposits",
        EscrowStatus::Active => "Active",
        EscrowStatus::Settled => "Settled",
        EscrowStatus::Cancelled => "Cancelled",
        EscrowStatus::TimedOut => "TimedOut",
    }
}

impl EscrowStatus {
    /// The status's name.
    pub fn label(&self) -> (r: &'static str)
        ensures
            r == status_label(*self),
    {
        match self {
            EscrowStatus::AwaitingDeposits => "AwaitingDeposits",
            EscrowStatus::Active => "Active",
            EscrowStatus::Settled => "Settled",
            EscrowStatus::Cancelled => "Cancelled",
            EscrowStatus::TimedOut => "TimedOut",
        }
    }
}

#[derive(Debug)]
pub struct Escrow {
    pub game_id: String,
    pub player_a: String,
    pub player_b: String,
    /// Stake per player.
    pub wager_amount: u128,
    pub player_a_deposited: bool,
    pub player_b_deposited: bool,
    pub status: EscrowStatus,
    pub created_at: u64,
    pub settled_at: Option<u64>,
}

impl Clone for Escrow {
    fn clone(&self) -> (r: Self)
        ensures
            r == *self,
    {
        Escrow {
            game_id: self.game_id.clone(),
            player_a: self.player_a.clone(),
            player_b: self.player_b.clone(),
            wager_amount: self.wager_amount,
            player_a_deposited: self.player_a_deposited,
            player_b_deposited: self.player_b_deposited,
            status: self.status,
            created_at: self.created_at,
            settled_at: self.settled_at,
        }
    }
}

impl Escrow {
    /// The record's invariant: the status agrees with the deposit flags, and
    /// a closing time is recorded exactly when the escrow is closed.
    pub open spec fn wf(&self) -> bool {
        let both = self.player_a_deposited && self.player_b_deposited;
        &&& (self.status == EscrowStatus::AwaitingDeposits ==> !both)
        &&& (self.status == EscrowStatus::Active ==> both)
        &&& (self.status == EscrowStatus::Settled ==> both)
        &&& (self.status == EscrowStatus::TimedOut ==> self.player_a_deposited != self.player_b_deposited)
        &&& (self.settled_at is None <==> self.is_open())
    }

    pub open spec fn is_open(&self) -> bool {
        self.status == EscrowStatus::AwaitingDeposits || self.status == EscrowStatus::Active
    }
}

/// Everything the escrow service keeps.
#[derive(Debug)]
pub struct State {
    pub config: Config,
    /// Escrows by game id.
    pub escrows: Table<Escrow>,
    pub total_rake_collected: u128,
    pub total_games_settled: u64,
}

impl State {
    pub open spec fn wf(&self) -> bool {
        &&& self.escrows.wf()
        &&& forall|k: Seq<char>| #[trigger] self.escrows@.contains_key(k) ==> self.escrows@[k].wf() && self.escrows@[k].game_id@ == k
    }
}

} // verus!
