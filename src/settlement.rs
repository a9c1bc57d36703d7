use vstd::prelude::*;

use crate::address::{same_address, Address};
use crate::error::MarketError;
use crate::pricing::{net_payout, net_payout_fails, net_payout_value};
use crate::state::{Bet, Market, MarketStatus, UserStats};

verus! {

/// The market a bet was placed on, the bet, its owner's figures, and the claimant.
#[derive(Clone, Debug)]
pub struct ClaimWinnings {
    pub market: Market,
    pub bet: Bet,
    pub user_stats: UserStats,
    pub user: Address,
}

/// The pool of the side that won.
pub open spec fn winning_pool(m: Market) -> u64 {
    if m.outcome->Some_0 {
        m.yes_pool
    } else {
        m.no_pool
    }
}

/// The pool of the side that lost.
pub open spec fn losing_pool(m: Market) -> u64 {
    if m.outcome->Some_0 {
        m.no_pool
    } else {
        m.yes_pool
    }
}

/// Whether the bet backed the outcome the market settled on.
pub open spec fn bet_won(ctx: ClaimWinnings) -> bool {
    ctx.bet.prediction == ctx.market.outcome->Some_0
}

/// What a winning bet of `ctx` is paid, after the fee.
pub open spec fn winning_payout(ctx: ClaimWinnings) -> int {
    net_payout_value(
        ctx.bet.amount as int,
        winning_pool(ctx.market) as int,
        losing_pool(ctx.market) as int,
        ctx.market.fee_percentage as int,
    )
}

/// Whether settling the bet of `ctx` would take a figure out of its range.
pub open spec fn claim_overflows(ctx: ClaimWinnings) -> bool {
    let s = ctx.user_stats;
    let amount = ctx.bet.amount;
    if bet_won(ctx) {
        let p = winning_payout(ctx);
        ||| net_payout_fails(
            amount as int,
            winning_pool(ctx.market) as int,
            losing_pool(ctx.market) as int,
            ctx.market.fee_percentage as int,
        )
        ||| s.total_won + p > u64::MAX
        ||| s.win_count + 1 > u32::MAX
        ||| s.current_streak + 1 > u32::MAX
        ||| p > i64::MAX
        ||| amount > i64::MAX
        ||| s.net_profit + (p - amount) > i64::MAX
        ||| s.net_profit + (p - amount) < i64::MIN
    } else {
        ||| s.total_lost + amount > u64::MAX
        ||| s.loss_count + 1 > u32::MAX
        ||| amount > i64::MAX
        ||| s.net_profit - amount < i64::MIN
    }
}

/// Which check, if any, refuses a claim; the first that fails wins.
pub open spec fn claim_winnings_error(ctx: ClaimWinnings) -> Option<MarketError> {
    if ctx.market.status != MarketStatus::Resolved {
        Some(MarketError::MarketNotResolved)
    } else if !ctx.market.is_finalized {
        Some(MarketError::ResolutionNotFinalized)
    } else if ctx.bet.claimed {
        Some(MarketError::AlreadyClaimed)
    } else if !same_address(ctx.bet.user, ctx.user) {
        Some(MarketError::NotBetOwner)
    } else if ctx.market.outcome is None {
        Some(MarketError::MarketNotResolved)
    } else if claim_overflows(ctx) {
        Some(MarketError::MathOverflow)
    } else {
        None
    }
}

/// A bettor's figures after being paid `payout` on a winning stake of `amount`.
pub open spec fn stats_after_win(s: UserStats, payout: int, amount: int) -> UserStats {
    let streak = s.current_streak + 1;
    UserStats {
        total_won: (s.total_won + payout) as u64,
        win_count: (s.win_count + 1) as u32,
        current_streak: streak as u32,
        best_streak: if streak > s.best_streak {
            streak as u32
        } else {
            s.best_streak
        },
        net_profit: (s.net_profit + payout - amount) as i64,
        ..s
    }
}

/// A bettor's figures after losing a stake of `amount`: the streak starts over.
pub open spec fn stats_after_loss(s: UserStats, amount: int) -> UserStats {
    UserStats {
        total_lost: (s.total_lost + amount) as u64,
        loss_count: (s.loss_count + 1) as u32,
        current_streak: 0,
        net_profit: (s.net_profit - amount) as i64,
        ..s
    }
}

/// What the bet of `ctx` is paid: its net payout if it won, nothing if it lost.
pub open spec fn claim_payout(ctx: ClaimWinnings) -> int {
    if bet_won(ctx) {
        winning_payout(ctx)
    } else {
        0
    }
}

/// The whole effect of a successful claim on the records of `ctx`.
pub open spec fn claim_applied(pre: ClaimWinnings, post: ClaimWinnings) -> bool {
    post == (ClaimWinnings {
        bet: (Bet { claimed: true, payout: claim_payout(pre) as u64, ..pre.bet }),
        user_stats: if bet_won(pre) {
            stats_after_win(pre.user_stats, claim_payout(pre), pre.bet.amount as int)
        } else {
            stats_after_loss(pre.user_stats, pre.bet.amount as int)
        },
        ..pre
    })
}

/// Settles a bet on a finalized market, once, for its owner. A winning bet is paid
/// its stake plus its share of the losing pool, less the fee; a losing one is paid
/// nothing. Returns the payout, which the caller moves from the vault to the bettor;
/// where that move fails it keeps the records as they were before the call.
/// On failure nothing changes.
pub fn claim_winnings(ctx: &mut ClaimWinnings) -> (r: Result<u64, MarketError>)
    ensures
        match r {
            Ok(payout) => claim_winnings_error(*old(ctx)) is None && payout == claim_payout(
                *old(ctx),
            ) && claim_applied(*old(ctx), *final(ctx)),
            Err(e) => claim_winnings_error(*old(ctx)) == Some(e) && *final(ctx) == *old(ctx),
        },
        final(ctx).market == old(ctx).market,
{
    if ctx.market.status != MarketStatus::Resolved {
        return Err(MarketError::MarketNotResolved);
    }
    if !ctx.market.is_finalized {
        return Err(MarketError::ResolutionNotFinalized);
    }
    if ctx.bet.claimed {
        return Err(MarketError::AlreadyClaimed);
    }
    if !ctx.bet.user.same_as(&ctx.user) {
        return Err(MarketError::NotBetOwner);
    }
    let outcome = match ctx.market.outcome {
        Some(o) => o,
        None => return Err(MarketError::MarketNotResolved),
    };
    let amount = ctx.bet.amount;
    if amount > i64::MAX as u64 {
        return Err(MarketError::MathOverflow);
    }
    if ctx.bet.prediction == outcome {
        let (winning, losing) = if outcome {
            (ctx.market.yes_pool, ctx.market.no_pool)
        } else {
            (ctx.market.no_pool, ctx.market.yes_pool)
        };
        let payout = net_payout(amount, winning, losing, ctx.market.fee_percentage)?;
        let total_won = match ctx.user_stats.total_won.checked_add(payout) {
            Some(v) => v,
            None => return Err(MarketError::MathOverflow),
        };
        let win_count = match ctx.user_stats.win_count.checked_add(1) {
            Some(v) => v,
            None => return Err(MarketError::MathOverflow),
        };
        let streak = match ctx.user_stats.current_streak.checked_add(1) {
            Some(v) => v,
            None => return Err(MarketError::MathOverflow),
        };
        if payout > i64::MAX as u64 {
            return Err(MarketError::MathOverflow);
        }
        let profit: i64 = payout as i64 - amount as i64;
        let net_profit = match ctx.user_stats.net_profit.checked_add(profit) {
            Some(v) => v,
            None => return Err(MarketError::MathOverflow),
        };
        ctx.bet.payout = payout;
        ctx.bet.claimed = true;
        ctx.user_stats.total_won = total_won;
        ctx.user_stats.win_count = win_count;
        ctx.user_stats.current_streak = streak;
        if streak > ctx.user_stats.best_streak {
            ctx.user_stats.best_streak = streak;
        }
        ctx.user_stats.net_profit = net_profit;
        Ok(payout)
    } else {
        let total_lost = match ctx.user_stats.total_lost.checked_add(amount) {
            Some(v) => v,
            None => return Err(MarketError::MathOverflow),
        };
        let loss_count = match ctx.user_stats.loss_count.checked_add(1) {
            Some(v) => v,
            None => return Err(MarketError::MathOverflow),
        };
        let net_profit = match ctx.user_stats.net_profit.checked_sub(amount as i64) {
            Some(v) => v,
            None => return Err(MarketError::MathOverflow),
        };
        ctx.bet.payout = 0;
        ctx.bet.claimed = true;
        ctx.user_stats.total_lost = total_lost;
        ctx.user_stats.loss_count = loss_count;
        ctx.user_stats.current_streak = 0;
        ctx.user_stats.net_profit = net_profit;
        Ok(0)
    }
}

} // verus!
