//! The rating engine: a fixed step per result, floored for the loser, and the
//! running statistics of each player.
use vstd::prelude::*;

use super::state::PlayerStats;

verus! {

/// 1500.00, in hundredths.
pub const DEFAULT_RATING: u32 = 150_000;

/// 10.00 per result.
pub const RATING_CHANGE: u32 = 1_000;

/// 1000.00: no loss takes a rating below this.
pub const MIN_RATING: u32 = 100_000;

/// A winner's new rating: one step up, saturating at `u32::MAX`.
pub open spec fn raised(r: u32) -> u32 {
    if r + RATING_CHANGE > u32::MAX {
        u32::MAX
    } else {
        (r + RATING_CHANGE) as u32
    }
}

/// A loser's new rating: one step down, saturating at zero, then at least
/// `MIN_RATING`.
pub open spec fn lowered(r: u32) -> u32 {
    let down: int = if r < RATING_CHANGE { 0 } else { r - RATING_CHANGE };
    if down < MIN_RATING {
        MIN_RATING
    } else {
        down as u32
    }
}

pub fn rating_after_win(rating: u32) -> (r: u32)
    ensures
        r == raised(rating),
{
    rating.saturating_add(RATING_CHANGE)
}

pub fn rating_after_loss(rating: u32) -> (r: u32)
    ensures
        r == lowered(rating),
        r >= MIN_RATING,
{
    let down = rating.saturating_sub(RATING_CHANGE);
    if down < MIN_RATING {
        MIN_RATING
    } else {
        down
    }
}

/// A player's statistics before their first match.
pub open spec fn default_stats(address: String) -> PlayerStats {
    PlayerStats {
        address,
        games_played: 0,
        games_won: 0,
        rating: DEFAULT_RATING,
        total_wagered: 0,
        total_won: 0,
    }
}

pub fn new_player_stats(address: String) -> (r: PlayerStats)
    ensures
        r == default_stats(address),
{
    PlayerStats {
        address,
        games_played: 0,
        games_won: 0,
        rating: DEFAULT_RATING,
        total_wagered: 0,
        total_won: 0,
    }
}

/// The winner's statistics after a match with stake `wager`: one more game
/// and win, a raised rating, the stake wagered and the pot of two stakes won.
/// Counts and totals saturate at the top of their types.
pub open spec fn stats_after_win(s: PlayerStats, wager: u128) -> PlayerStats {
    PlayerStats {
        games_played: s.games_played.saturating_add(1),
        games_won: s.games_won.saturating_add(1),
        rating: raised(s.rating),
        total_wagered: s.total_wagered.saturating_add(wager),
        total_won: if s.total_won + 2 * wager > u128::MAX { u128::MAX } else { (s.total_won + 2 * wager) as u128 },
        ..s
    }
}

/// The loser's statistics after a match with stake `wager`: one more game,
/// a lowered rating and the stake wagered, saturating like the winner's.
pub open spec fn stats_after_loss(s: PlayerStats, wager: u128) -> PlayerStats {
    PlayerStats {
        games_played: s.games_played.saturating_add(1),
        rating: lowered(s.rating),
        total_wagered: s.total_wagered.saturating_add(wager),
        ..s
    }
}

/// The winner's new statistics.
pub fn record_win(s: &PlayerStats, wager: u128) -> (r: PlayerStats)
    ensures
        r == stats_after_win(*s, wager),
{
    PlayerStats {
        address: s.address.clone(),
        games_played: s.games_played.saturating_add(1),
        games_won: s.games_won.saturating_add(1),
        rating: rating_after_win(s.rating),
        total_wagered: s.total_wagered.saturating_add(wager),
        total_won: s.total_won.saturating_add(wager).saturating_add(wager),
    }
}

/// The loser's new statistics.
pub fn record_loss(s: &PlayerStats, wager: u128) -> (r: PlayerStats)
    ensures
        r == stats_after_loss(*s, wager),
{
    PlayerStats {
        address: s.address.clone(),
        games_played: s.games_played.saturating_add(1),
        games_won: s.games_won,
        rating: rating_after_loss(s.rating),
        total_wagered: s.total_wagered.saturating_add(wager),
        total_won: s.total_won,
    }
}

/// The rating after a run of results, `true` for a win.
pub open spec fn rating_after(r: u32, wins: Seq<bool>) -> u32
    decreases wins.len(),
{
    if wins.len() == 0 {
        r
    } else {
        rating_after(if wins[0] { raised(r) } else { lowered(r) }, wins.drop_first())
    }
}

/// A rating never falls below `MIN_RATING`, whatever run of wins and losses
/// follows; a single loss lands at or above it from any rating.
pub proof fn lemma_rating_floor(r: u32, wins: Seq<bool>)
    requires
        r >= MIN_RATING,
    ensures
        rating_after(r, wins) >= MIN_RATING,
        forall|x: u32| #[trigger] lowered(x) >= MIN_RATING,
    decreases wins.len(),
{
    if wins.len() > 0 {
        lemma_rating_floor(if wins[0] { raised(r) } else { lowered(r) }, wins.drop_first());
    }
}

/// Ratings have no ceiling but that of `u32`: after `n` straight wins a
/// rating has risen by `n` steps, or stands at `u32::MAX`.
pub proof fn lemma_rating_unbounded(r: u32, n: nat)
    ensures
        rating_after(r, Seq::new(n, |i: int| true)) == if r + n * RATING_CHANGE > u32::MAX {
            u32::MAX as int
        } else {
            r + n * RATING_CHANGE
        },
    decreases n,
{
    if n > 0 {
        let wins = Seq::new(n, |i: int| true);
        assert(wins.drop_first() =~= Seq::new((n - 1) as nat, |i: int| true));
        lemma_rating_unbounded(raised(r), (n - 1) as nat);
        assert(n * RATING_CHANGE == (n - 1) * RATING_CHANGE + RATING_CHANGE) by (nonlinear_arith);
    }
}

} // verus!
