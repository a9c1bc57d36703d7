use vstd::prelude::*;

use crate::address::Address;
use crate::error::MarketError;
use crate::state::{status_advances, Market, MarketStatus, CHALLENGE_PERIOD, MIN_RESOLUTION_BOND};

verus! {

/// The market to resolve, who proposes, what that proposer can pay, and the current time.
#[derive(Clone, Debug)]
pub struct ResolveMarket {
    pub market: Market,
    pub proposer: Address,
    /// Balance of the proposer's token account.
    pub proposer_balance: u64,
    pub now: i64,
}

/// The market whose resolution is to be made final, and the current time.
#[derive(Clone, Debug)]
pub struct FinalizeResolution {
    pub market: Market,
    pub now: i64,
}

/// The bond a proposal on `m` must put up: the minimum for a first proposal,
/// twice the standing bond for a challenge.
pub open spec fn required_bond(m: Market) -> int {
    if m.resolution_proposer is Some {
        2 * m.resolution_bond
    } else {
        MIN_RESOLUTION_BOND as int
    }
}

/// Whether a proposal stands on `m` whose challenge window has closed at `now`.
pub open spec fn challenge_closed(m: Market, now: i64) -> bool {
    &&& m.resolution_proposer is Some
    &&& m.challenge_deadline is Some
    &&& now >= m.challenge_deadline->Some_0
}

/// Which check, if any, refuses a proposal; the first that fails wins.
pub open spec fn resolve_market_error(ctx: ResolveMarket) -> Option<MarketError> {
    if ctx.market.status != MarketStatus::Active {
        Some(MarketError::MarketNotActive)
    } else if ctx.now < ctx.market.end_time {
        Some(MarketError::MarketNotEnded)
    } else if challenge_closed(ctx.market, ctx.now) {
        Some(MarketError::ChallengePeriodEnded)
    } else if ctx.proposer_balance < MIN_RESOLUTION_BOND {
        Some(MarketError::InsufficientBond)
    } else if required_bond(ctx.market) > u64::MAX {
        Some(MarketError::MathOverflow)
    } else if ctx.proposer_balance < required_bond(ctx.market) {
        Some(MarketError::InsufficientBond)
    } else if ctx.now + CHALLENGE_PERIOD > i64::MAX {
        Some(MarketError::MathOverflow)
    } else {
        None
    }
}

/// The market once `ctx.proposer` has proposed `outcome`: the proposal replaces any
/// earlier one and the challenge window restarts from now.
pub open spec fn market_after_proposal(ctx: ResolveMarket, outcome: bool) -> Market {
    Market {
        resolution_proposer: Some(ctx.proposer),
        outcome: Some(outcome),
        resolution_bond: required_bond(ctx.market) as u64,
        challenge_deadline: Some((ctx.now + CHALLENGE_PERIOD) as i64),
        resolution_time: Some(ctx.now),
        ..ctx.market
    }
}

/// Proposes `outcome` for a market whose betting has ended, or challenges the
/// standing proposal while its challenge window is open. A first proposal puts up the minimum bond; a challenge puts
/// up twice the standing bond. Each proposal restarts the challenge window.
/// Returns the bond, which the caller moves from the proposer into the vault;
/// where that move fails it keeps the market as it was before the call.
/// On failure nothing changes.
pub fn resolve_market(ctx: &mut ResolveMarket, outcome: bool) -> (r: Result<u64, MarketError>)
    ensures
        match r {
            Ok(bond) => resolve_market_error(*old(ctx)) is None && bond == required_bond(
                old(ctx).market,
            ) && *final(ctx) == (ResolveMarket {
                market: market_after_proposal(*old(ctx), outcome),
                ..*old(ctx)
            }),
            Err(e) => resolve_market_error(*old(ctx)) == Some(e) && *final(ctx) == *old(ctx),
        },
        status_advances(old(ctx).market.status, final(ctx).market.status),
{
    if ctx.market.status != MarketStatus::Active {
        return Err(MarketError::MarketNotActive);
    }
    if ctx.now < ctx.market.end_time {
        return Err(MarketError::MarketNotEnded);
    }
    if ctx.market.resolution_proposer.is_some() {
        if let Some(deadline) = ctx.market.challenge_deadline {
            if ctx.now >= deadline {
                return Err(MarketError::ChallengePeriodEnded);
            }
        }
    }
    if ctx.proposer_balance < MIN_RESOLUTION_BOND {
        return Err(MarketError::InsufficientBond);
    }
    let bond = if ctx.market.resolution_proposer.is_some() {
        match ctx.market.resolution_bond.checked_mul(2) {
            Some(b) => b,
            None => return Err(MarketError::MathOverflow),
        }
    } else {
        MIN_RESOLUTION_BOND
    };
    if ctx.proposer_balance < bond {
        return Err(MarketError::InsufficientBond);
    }
    let deadline = match ctx.now.checked_add(CHALLENGE_PERIOD) {
        Some(d) => d,
        None => return Err(MarketError::MathOverflow),
    };
    ctx.market.resolution_proposer = Some(ctx.proposer);
    ctx.market.outcome = Some(outcome);
    ctx.market.resolution_bond = bond;
    ctx.market.challenge_deadline = Some(deadline);
    ctx.market.resolution_time = Some(ctx.now);
    Ok(bond)
}

/// Which check, if any, refuses finalization; the first that fails wins.
pub open spec fn finalize_resolution_error(ctx: FinalizeResolution) -> Option<MarketError> {
    if ctx.market.status != MarketStatus::Active {
        Some(MarketError::MarketNotActive)
    } else if ctx.market.outcome is None {
        Some(MarketError::NoResolutionProposed)
    } else if ctx.market.is_finalized {
        Some(MarketError::AlreadyFinalized)
    } else if ctx.market.challenge_deadline is None {
        Some(MarketError::NoResolutionProposed)
    } else if ctx.now < ctx.market.challenge_deadline->Some_0 {
        Some(MarketError::ChallengePeriodActive)
    } else if ctx.market.resolution_bond > 0 && ctx.market.resolution_proposer is None {
        Some(MarketError::NoResolutionProposed)
    } else {
        None
    }
}

/// Makes the standing proposal the market's outcome once its challenge window has
/// closed. Returns the bond, which the caller moves from the vault back to the
/// last proposer; where that move fails it keeps the market as it was before the call.
/// On failure nothing changes.
pub fn finalize_resolution(ctx: &mut FinalizeResolution) -> (r: Result<u64, MarketError>)
    ensures
        match r {
            Ok(refund) => finalize_resolution_error(*old(ctx)) is None && refund
                == old(ctx).market.resolution_bond && *final(ctx) == (FinalizeResolution {
                market: (Market {
                    status: MarketStatus::Resolved,
                    is_finalized: true,
                    ..old(ctx).market
                }),
                ..*old(ctx)
            }),
            Err(e) => finalize_resolution_error(*old(ctx)) == Some(e) && *final(ctx) == *old(
                ctx,
            ),
        },
        status_advances(old(ctx).market.status, final(ctx).market.status),
{
    if ctx.market.status != MarketStatus::Active {
        return Err(MarketError::MarketNotActive);
    }
    if ctx.market.outcome.is_none() {
        return Err(MarketError::NoResolutionProposed);
    }
    if ctx.market.is_finalized {
        return Err(MarketError::AlreadyFinalized);
    }
    let deadline = match ctx.market.challenge_deadline {
        Some(d) => d,
        None => return Err(MarketError::NoResolutionProposed),
    };
    if ctx.now < deadline {
        return Err(MarketError::ChallengePeriodActive);
    }
    if ctx.market.resolution_bond > 0 && ctx.market.resolution_proposer.is_none() {
        return Err(MarketError::NoResolutionProposed);
    }
    ctx.market.status = MarketStatus::Resolved;
    ctx.market.is_finalized = true;
    Ok(ctx.market.resolution_bond)
}

} // verus!
