use vstd::prelude::*;
use vstd::string::StrSliceExecFns;

use crate::address::{same_address, Address};
use crate::error::{ErrorKind, MarketError};
use crate::pricing::{swap_output, swap_quote};
use crate::state::{
    status_advances, Bet, Market, MarketStatus, UserStats, FEE_PERCENTAGE, INITIAL_POOL, MAX_BET,
    MAX_CATEGORY_LEN, MAX_DESCRIPTION_LEN, MAX_MARKET_DURATION, MAX_QUESTION_LEN, MIN_BET,
};

verus! {

/// What creating a market needs besides its content: who creates it, the vault
/// that will hold its stakes, and the current time.
#[derive(Clone, Copy, Debug)]
pub struct CreateMarket {
    pub creator: Address,
    pub vault: Address,
    pub vault_bump: u8,
    pub now: i64,
}

/// The records a bet reads and changes, the bettor, and the current time.
#[derive(Clone, Debug)]
pub struct PlaceBet {
    pub market: Market,
    /// Address of the market record, written into the bet.
    pub market_key: Address,
    pub user_stats: UserStats,
    pub user: Address,
    pub now: i64,
}

/// The market to cancel and the identity asking for it.
#[derive(Clone, Debug)]
pub struct CancelMarket {
    pub market: Market,
    pub creator: Address,
}

/// Which check, if any, rejects a new market; the first that fails wins.
pub open spec fn create_market_error(
    now: i64,
    question: Seq<char>,
    description: Seq<char>,
    category: Seq<char>,
    end_time: i64,
) -> Option<MarketError> {
    if question.len() > MAX_QUESTION_LEN {
        Some(MarketError::QuestionTooLong)
    } else if description.len() > MAX_DESCRIPTION_LEN {
        Some(MarketError::DescriptionTooLong)
    } else if category.len() > MAX_CATEGORY_LEN {
        Some(MarketError::CategoryTooLong)
    } else if end_time <= now {
        Some(MarketError::EndTimeInPast)
    } else if end_time >= now + MAX_MARKET_DURATION {
        Some(MarketError::EndTimeTooFar)
    } else {
        None
    }
}

/// A market as it stands right after creation: seeded pools, zero totals, no proposal.
pub open spec fn new_market(
    ctx: CreateMarket,
    market_id: u64,
    question: String,
    description: String,
    end_time: i64,
    category: String,
) -> Market {
    Market {
        id: market_id,
        question,
        description,
        creator: ctx.creator,
        created_at: ctx.now,
        end_time,
        resolution_time: None,
        outcome: None,
        category,
        yes_pool: INITIAL_POOL,
        no_pool: INITIAL_POOL,
        total_yes_bets: 0,
        total_no_bets: 0,
        total_volume: 0,
        total_bets_count: 0,
        unique_bettors: 0,
        fee_percentage: FEE_PERCENTAGE,
        status: MarketStatus::Active,
        vault: ctx.vault,
        vault_bump: ctx.vault_bump,
        resolution_proposer: None,
        resolution_bond: 0,
        challenge_deadline: None,
        is_finalized: false,
        resolver: ctx.creator,
    }
}

/// Opens a market on `question`, taking bets until `end_time`.
/// The question may hold at most 200 characters, the description 500 and the
/// category 50; the end
/// time must lie after `ctx.now` and less than thirty days past it.
pub fn create_market(
    ctx: &CreateMarket,
    market_id: u64,
    question: String,
    description: String,
    end_time: i64,
    category: String,
) -> (r: Result<Market, MarketError>)
    ensures
        match r {
            Ok(m) => create_market_error(ctx.now, question@, description@, category@, end_time) is None && m
                == new_market(*ctx, market_id, question, description, end_time, category),
            Err(e) => create_market_error(ctx.now, question@, description@, category@, end_time) == Some(e),
        },
{
    if question.as_str().unicode_len() > MAX_QUESTION_LEN {
        return Err(MarketError::QuestionTooLong);
    }
    if description.as_str().unicode_len() > MAX_DESCRIPTION_LEN {
        return Err(MarketError::DescriptionTooLong);
    }
    if category.as_str().unicode_len() > MAX_CATEGORY_LEN {
        return Err(MarketError::CategoryTooLong);
    }
    if end_time <= ctx.now {
        return Err(MarketError::EndTimeInPast);
    }
    if end_time as i128 >= ctx.now as i128 + MAX_MARKET_DURATION as i128 {
        return Err(MarketError::EndTimeTooFar);
    }
    Ok(
        Market {
            id: market_id,
            question,
            description,
            creator: ctx.creator,
            created_at: ctx.now,
            end_time,
            resolution_time: None,
            outcome: None,
            category,
            yes_pool: INITIAL_POOL,
            no_pool: INITIAL_POOL,
            total_yes_bets: 0,
            total_no_bets: 0,
            total_volume: 0,
            total_bets_count: 0,
            unique_bettors: 0,
            fee_percentage: FEE_PERCENTAGE,
            status: MarketStatus::Active,
            vault: ctx.vault,
            vault_bump: ctx.vault_bump,
            resolution_proposer: None,
            resolution_bond: 0,
            challenge_deadline: None,
            is_finalized: false,
            resolver: ctx.creator,
        },
    )
}

/// Which check, if any, refuses a cancellation; the first that fails wins.
pub open spec fn cancel_market_error(market: Market, creator: Address) -> Option<MarketError> {
    if !same_address(creator, market.creator) {
        Some(MarketError::NotCreator)
    } else if market.total_bets_count != 0 {
        Some(MarketError::HasBets)
    } else if market.status != MarketStatus::Active {
        Some(MarketError::MarketNotActive)
    } else {
        None
    }
}

/// Cancels a market that has taken no bet, on its creator's request.
pub fn cancel_market(ctx: &mut CancelMarket) -> (r: Result<(), MarketError>)
    ensures
        match r {
            Ok(_) => cancel_market_error(old(ctx).market, old(ctx).creator) is None
                && *final(ctx) == (CancelMarket {
                    market: (Market { status: MarketStatus::Cancelled, ..old(ctx).market }),
                    ..*old(ctx)
                }),
            Err(e) => cancel_market_error(old(ctx).market, old(ctx).creator) == Some(e)
                && *final(ctx) == *old(ctx),
        },
        status_advances(old(ctx).market.status, final(ctx).market.status),
        old(ctx).market.total_bets_count > 0 ==> (r matches Err(e) && (same_address(
            old(ctx).creator,
            old(ctx).market.creator,
        ) ==> e == MarketError::HasBets)),
{
    if !ctx.creator.same_as(&ctx.market.creator) {
        return Err(MarketError::NotCreator);
    }
    if ctx.market.total_bets_count != 0 {
        return Err(MarketError::HasBets);
    }
    if ctx.market.status != MarketStatus::Active {
        return Err(MarketError::MarketNotActive);
    }
    ctx.market.status = MarketStatus::Cancelled;
    Ok(())
}

/// The pool a bet on `prediction` buys into.
pub open spec fn selected_pool(m: Market, prediction: bool) -> u64 {
    if prediction {
        m.yes_pool
    } else {
        m.no_pool
    }
}

/// The pool on the other side of a bet on `prediction`.
pub open spec fn opposite_pool(m: Market, prediction: bool) -> u64 {
    if prediction {
        m.no_pool
    } else {
        m.yes_pool
    }
}

/// The running total of stakes on the side of `prediction`.
pub open spec fn side_total(m: Market, prediction: bool) -> u64 {
    if prediction {
        m.total_yes_bets
    } else {
        m.total_no_bets
    }
}

/// Whether one of the counters a bet moves would leave the range of `u64`.
pub open spec fn place_bet_overflows(m: Market, s: UserStats, amount: u64, prediction: bool) -> bool {
    ||| m.yes_pool + m.no_pool > u64::MAX
    ||| selected_pool(m, prediction) + amount > u64::MAX
    ||| side_total(m, prediction) + amount > u64::MAX
    ||| m.total_volume + amount > u64::MAX
    ||| m.total_bets_count + 1 > u64::MAX
    ||| (s.total_bets == 0 && m.unique_bettors + 1 > u64::MAX)
    ||| s.total_bets + 1 > u64::MAX
    ||| (s.total_bets != 0 && s.total_wagered + amount > u64::MAX)
}

/// Which check, if any, refuses a bet; the first that fails wins.
pub open spec fn place_bet_error(ctx: PlaceBet, amount: u64, prediction: bool) -> Option<MarketError> {
    if ctx.market.status != MarketStatus::Active {
        Some(MarketError::MarketNotActive)
    } else if ctx.now >= ctx.market.end_time {
        Some(MarketError::MarketEnded)
    } else if amount < MIN_BET {
        Some(MarketError::BetTooSmall)
    } else if amount > MAX_BET {
        Some(MarketError::BetTooLarge)
    } else if place_bet_overflows(ctx.market, ctx.user_stats, amount, prediction) {
        Some(MarketError::MathOverflow)
    } else {
        None
    }
}

/// The market after a stake of `amount` on `prediction`; `first_bet` tells whether
/// the bettor had never bet before.
pub open spec fn market_after_bet(m: Market, first_bet: bool, amount: u64, prediction: bool) -> Market {
    let counted = Market {
        total_volume: (m.total_volume + amount) as u64,
        total_bets_count: (m.total_bets_count + 1) as u64,
        unique_bettors: if first_bet {
            (m.unique_bettors + 1) as u64
        } else {
            m.unique_bettors
        },
        ..m
    };
    if prediction {
        Market {
            yes_pool: (m.yes_pool + amount) as u64,
            total_yes_bets: (m.total_yes_bets + amount) as u64,
            ..counted
        }
    } else {
        Market {
            no_pool: (m.no_pool + amount) as u64,
            total_no_bets: (m.total_no_bets + amount) as u64,
            ..counted
        }
    }
}

/// A bettor's figures after a stake of `amount`; a first bet starts them afresh.
pub open spec fn stats_after_bet(s: UserStats, user: Address, amount: u64) -> UserStats {
    if s.total_bets == 0 {
        UserStats {
            user,
            total_bets: 1,
            total_wagered: amount,
            total_won: 0,
            total_lost: 0,
            win_count: 0,
            loss_count: 0,
            current_streak: 0,
            best_streak: 0,
            net_profit: 0,
        }
    } else {
        UserStats {
            total_bets: (s.total_bets + 1) as u64,
            total_wagered: (s.total_wagered + amount) as u64,
            ..s
        }
    }
}

/// The record of a stake placed on the market of `ctx`.
pub open spec fn new_bet(ctx: PlaceBet, amount: u64, prediction: bool) -> Bet {
    Bet {
        market: ctx.market_key,
        user: ctx.user,
        amount,
        tokens_received: swap_quote(
            amount as int,
            selected_pool(ctx.market, prediction) as int,
            opposite_pool(ctx.market, prediction) as int,
        ) as u64,
        prediction,
        timestamp: ctx.now,
        claimed: false,
        payout: 0,
    }
}

/// The whole effect of an accepted bet on the records of `ctx`.
pub open spec fn bet_applied(pre: PlaceBet, post: PlaceBet, amount: u64, prediction: bool) -> bool {
    post == (PlaceBet {
        market: market_after_bet(pre.market, pre.user_stats.total_bets == 0, amount, prediction),
        user_stats: stats_after_bet(pre.user_stats, pre.user, amount),
        ..pre
    })
}

/// Stakes `amount` on `prediction` (`true` for YES) and returns the new bet record.
/// The stake must lie between one and ten thousand units, on an active market
/// before its end time. The chosen side's pool grows by the stake.
/// On success the caller moves `amount` from the bettor into the vault; where
/// that move fails it keeps the records as they were before the call.
/// On failure nothing changes.
pub fn place_bet(ctx: &mut PlaceBet, amount: u64, prediction: bool) -> (r: Result<Bet, MarketError>)
    ensures
        match r {
            Ok(b) => place_bet_error(*old(ctx), amount, prediction) is None
                && bet_applied(*old(ctx), *final(ctx), amount, prediction)
                && b == new_bet(*old(ctx), amount, prediction),
            Err(e) => place_bet_error(*old(ctx), amount, prediction) == Some(e)
                && *final(ctx) == *old(ctx),
        },
        status_advances(old(ctx).market.status, final(ctx).market.status),
        old(ctx).now >= old(ctx).market.end_time ==> (r matches Err(e) && e.spec_kind()
            == ErrorKind::State),
{
    if ctx.market.status != MarketStatus::Active {
        return Err(MarketError::MarketNotActive);
    }
    if ctx.now >= ctx.market.end_time {
        return Err(MarketError::MarketEnded);
    }
    if amount < MIN_BET {
        return Err(MarketError::BetTooSmall);
    }
    if amount > MAX_BET {
        return Err(MarketError::BetTooLarge);
    }
    if ctx.market.yes_pool.checked_add(ctx.market.no_pool).is_none() {
        return Err(MarketError::MathOverflow);
    }
    let (selected, opposite, side) = if prediction {
        (ctx.market.yes_pool, ctx.market.no_pool, ctx.market.total_yes_bets)
    } else {
        (ctx.market.no_pool, ctx.market.yes_pool, ctx.market.total_no_bets)
    };
    let tokens_received = swap_output(amount, selected, opposite)?;
    let new_pool = match selected.checked_add(amount) {
        Some(v) => v,
        None => return Err(MarketError::MathOverflow),
    };
    let new_side = match side.checked_add(amount) {
        Some(v) => v,
        None => return Err(MarketError::MathOverflow),
    };
    let new_volume = match ctx.market.total_volume.checked_add(amount) {
        Some(v) => v,
        None => return Err(MarketError::MathOverflow),
    };
    let new_count = match ctx.market.total_bets_count.checked_add(1) {
        Some(v) => v,
        None => return Err(MarketError::MathOverflow),
    };
    let first_bet = ctx.user_stats.total_bets == 0;
    let new_bettors = if first_bet {
        match ctx.market.unique_bettors.checked_add(1) {
            Some(v) => v,
            None => return Err(MarketError::MathOverflow),
        }
    } else {
        ctx.market.unique_bettors
    };
    let new_total_bets = match ctx.user_stats.total_bets.checked_add(1) {
        Some(v) => v,
        None => return Err(MarketError::MathOverflow),
    };
    let prior_wagered = if first_bet {
        0
    } else {
        ctx.user_stats.total_wagered
    };
    let new_wagered = match prior_wagered.checked_add(amount) {
        Some(v) => v,
        None => return Err(MarketError::MathOverflow),
    };

    if prediction {
        ctx.market.yes_pool = new_pool;
        ctx.market.total_yes_bets = new_side;
    } else {
        ctx.market.no_pool = new_pool;
        ctx.market.total_no_bets = new_side;
    }
    ctx.market.total_volume = new_volume;
    ctx.market.total_bets_count = new_count;
    ctx.market.unique_bettors = new_bettors;
    if first_bet {
        ctx.user_stats = UserStats {
            user: ctx.user,
            total_bets: new_total_bets,
            total_wagered: new_wagered,
            total_won: 0,
            total_lost: 0,
            win_count: 0,
            loss_count: 0,
            current_streak: 0,
            best_streak: 0,
            net_profit: 0,
        };
    } else {
        ctx.user_stats.total_bets = new_total_bets;
        ctx.user_stats.total_wagered = new_wagered;
    }
    Ok(
        Bet {
            market: ctx.market_key,
            user: ctx.user,
            amount,
            tokens_received,
            prediction,
            timestamp: ctx.now,
            claimed: false,
            payout: 0,
        },
    )
}

} // verus!
