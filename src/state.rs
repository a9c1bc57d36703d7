use vstd::prelude::*;

use crate::address::Address;

verus! {

/// Longest question a market may carry, in characters.
pub const MAX_QUESTION_LEN: usize = 200;
/// Longest description a market may carry, in characters.
pub const MAX_DESCRIPTION_LEN: usize = 500;
/// Longest category a market may carry, in characters.
pub const MAX_CATEGORY_LEN: usize = 50;
/// How far past creation a market's betting cutoff may lie, in seconds (thirty days).
pub const MAX_MARKET_DURATION: i64 = 2_592_000;
/// Virtual liquidity each side's pool starts with (1000 units of six decimals).
pub const INITIAL_POOL: u64 = 1_000_000_000;
/// Percentage of a winning payout kept as the platform fee.
pub const FEE_PERCENTAGE: u8 = 2;
/// Smallest accepted stake (one unit).
pub const MIN_BET: u64 = 1_000_000;
/// Largest accepted stake (ten thousand units).
pub const MAX_BET: u64 = 10_000_000_000;
/// Bond of a first resolution proposal (one hundred units).
pub const MIN_RESOLUTION_BOND: u64 = 100_000_000;
/// Length of the challenge window after each proposal, in seconds (one day).
pub const CHALLENGE_PERIOD: i64 = 86_400;

/// Where a market stands in its life. It leaves `Active` at most once and never returns.
#[derive(Clone, Copy, Debug, PartialEq, Eq, Structural)]
pub enum MarketStatus {
    Active,
    Resolved,
    Cancelled,
}

/// One binary question, its pricing pools, its totals and its resolution.
#[derive(Clone, Debug)]
pub struct Market {
    pub id: u64,
    pub question: String,
    pub description: String,
    pub creator: Address,
    pub created_at: i64,
    pub end_time: i64,
    pub resolution_time: Option<i64>,
    /// `None` until proposed; `Some(true)` when YES is proposed or won.
    pub outcome: Option<bool>,
    pub category: String,
    pub yes_pool: u64,
    pub no_pool: u64,
    pub total_yes_bets: u64,
    pub total_no_bets: u64,
    pub total_volume: u64,
    pub total_bets_count: u64,
    pub unique_bettors: u64,
    pub fee_percentage: u8,
    pub status: MarketStatus,
    pub vault: Address,
    pub vault_bump: u8,
    pub resolution_proposer: Option<Address>,
    pub resolution_bond: u64,
    pub challenge_deadline: Option<i64>,
    pub is_finalized: bool,
    pub resolver: Address,
}

/// One stake on one side of a market.
#[derive(Clone, Copy, Debug)]
pub struct Bet {
    pub market: Address,
    pub user: Address,
    pub amount: u64,
    pub tokens_received: u64,
    /// `true` for YES, `false` for NO.
    pub prediction: bool,
    pub timestamp: i64,
    pub claimed: bool,
    pub payout: u64,
}

/// Running win and loss figures of one identity across all markets.
#[derive(Clone, Copy, Debug)]
pub struct UserStats {
    pub user: Address,
    pub total_bets: u64,
    pub total_wagered: u64,
    pub total_won: u64,
    pub total_lost: u64,
    pub win_count: u32,
    pub loss_count: u32,
    pub current_streak: u32,
    pub best_streak: u32,
    pub net_profit: i64,
}

/// A status may stay as it is, or leave `Active`; nothing else.
pub open spec fn status_advances(before: MarketStatus, after: MarketStatus) -> bool {
    before == after || (before == MarketStatus::Active && after != MarketStatus::Active)
}

} // verus!
