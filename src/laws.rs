use vstd::prelude::*;

use crate::error::{ErrorKind, MarketError};
use crate::pricing::{gross_payout, net_payout_fails, net_payout_value, payout_extra, payout_fee};
use crate::registry::{bet_applied, new_bet, place_bet_error, PlaceBet};
use crate::resolution::{market_after_proposal, required_bond, resolve_market_error, ResolveMarket};
use crate::settlement::{
    bet_won, claim_applied, claim_payout, claim_winnings_error, losing_pool, winning_pool,
    ClaimWinnings,
};
use crate::state::{status_advances, Bet, Market, MarketStatus, MIN_RESOLUTION_BOND};

verus! {

/// A bet that `place_bet` accepted: `pre` were the records before it, `post` after it.
pub open spec fn accepted_bet(pre: PlaceBet, post: PlaceBet, bet: Bet) -> bool {
    &&& place_bet_error(pre, bet.amount, bet.prediction) is None
    &&& bet_applied(pre, post, bet.amount, bet.prediction)
    &&& bet == new_bet(pre, bet.amount, bet.prediction)
}

/// The sum of the stakes of `bets`.
pub open spec fn sum_stakes(bets: Seq<Bet>) -> int
    decreases bets.len(),
{
    if bets.len() == 0 {
        0
    } else {
        sum_stakes(bets.drop_last()) + bets.last().amount
    }
}

/// Conservation of volume: after any run of accepted bets on one market that
/// started with no bet recorded, the total volume equals the YES total plus the NO
/// total, and both equal the sum of the stakes placed.
pub proof fn lemma_volume_conserved(pres: Seq<PlaceBet>, posts: Seq<PlaceBet>, bets: Seq<Bet>)
    requires
        bets.len() > 0,
        pres.len() == bets.len(),
        posts.len() == bets.len(),
        pres[0].market.total_volume == 0,
        pres[0].market.total_yes_bets == 0,
        pres[0].market.total_no_bets == 0,
        forall|i: int| 0 <= i < bets.len() ==> accepted_bet(#[trigger] pres[i], posts[i], bets[i]),
        forall|i: int| 0 < i < bets.len() ==> (#[trigger] pres[i]).market == posts[i - 1].market,
    ensures
        posts.last().market.total_volume == posts.last().market.total_yes_bets
            + posts.last().market.total_no_bets,
        posts.last().market.total_volume == sum_stakes(bets),
    decreases bets.len(),
{
    let n = bets.len() as int;
    assert(accepted_bet(pres[n - 1], posts[n - 1], bets[n - 1]));
    if n > 1 {
        let ps = pres.take(n - 1);
        let qs = posts.take(n - 1);
        let bs = bets.take(n - 1);
        assert forall|i: int| 0 <= i < bs.len() implies accepted_bet(
            #[trigger] ps[i],
            qs[i],
            bs[i],
        ) by {
            assert(accepted_bet(pres[i], posts[i], bets[i]));
        }
        assert forall|i: int| 0 < i < bs.len() implies (#[trigger] ps[i]).market == qs[i
            - 1].market by {
            assert(pres[i].market == posts[i - 1].market);
        }
        lemma_volume_conserved(ps, qs, bs);
        assert(bets.drop_last() =~= bs);
        assert(qs.last() == posts[n - 2]);
        assert(pres[n - 1].market == posts[n - 2].market);
        assert(sum_stakes(bets) == sum_stakes(bs) + bets[n - 1].amount);
    } else {
        assert(bets.drop_last() =~= Seq::<Bet>::empty());
        assert(sum_stakes(bets.drop_last()) == 0);
        assert(sum_stakes(bets) == bets[0].amount);
    }
}

/// A bet is paid at most once: after a successful claim, any later claim on the
/// same bet of the same market, by anyone, is refused as already claimed, which is
/// a state error.
pub proof fn lemma_claim_once(pre: ClaimWinnings, post: ClaimWinnings, again: ClaimWinnings)
    requires
        claim_winnings_error(pre) is None,
        claim_applied(pre, post),
        again.market == post.market,
        again.bet == post.bet,
    ensures
        claim_winnings_error(again) == Some(MarketError::AlreadyClaimed),
        MarketError::AlreadyClaimed.spec_kind() == ErrorKind::State,
{
}

/// Status never goes back: along any run of steps that each keep the status or
/// move it out of `Active`, once a market has left `Active` its status is fixed.
pub proof fn lemma_status_settles(statuses: Seq<MarketStatus>)
    requires
        forall|i: int|
            0 < i < statuses.len() ==> status_advances(statuses[i - 1], #[trigger] statuses[i]),
    ensures
        forall|i: int, j: int|
            0 <= i <= j < statuses.len() && statuses[i] != MarketStatus::Active ==> #[trigger] statuses[j]
                == #[trigger] statuses[i],
    decreases statuses.len(),
{
    let n = statuses.len() as int;
    if n > 0 {
        let prefix = statuses.drop_last();
        assert forall|i: int| 0 < i < prefix.len() implies status_advances(
            prefix[i - 1],
            #[trigger] prefix[i],
        ) by {
            assert(status_advances(statuses[i - 1], statuses[i]));
        }
        lemma_status_settles(prefix);
        assert forall|i: int, j: int|
            0 <= i <= j < n && statuses[i] != MarketStatus::Active implies #[trigger] statuses[j]
                == #[trigger] statuses[i] by {
            if j == n - 1 && i < j {
                assert(prefix[i] == statuses[i]);
                assert(prefix[j - 1] == statuses[j - 1]);
                assert(statuses[j - 1] == statuses[i]);
                assert(status_advances(statuses[j - 1], statuses[j]));
            } else if j < n - 1 {
                assert(prefix[i] == statuses[i]);
                assert(prefix[j] == statuses[j]);
            }
        }
    }
}

/// Bond escalation: a proposal accepted while another stands carries exactly twice
/// the bond of the proposal it replaces.
pub proof fn lemma_bond_doubles(pre: ResolveMarket, outcome: bool)
    requires
        resolve_market_error(pre) is None,
        pre.market.resolution_proposer is Some,
    ensures
        market_after_proposal(pre, outcome).resolution_bond == 2 * pre.market.resolution_bond,
{
}

/// The sum of `amounts`.
pub open spec fn sum_amounts(amounts: Seq<u64>) -> int
    decreases amounts.len(),
{
    if amounts.len() == 0 {
        0
    } else {
        sum_amounts(amounts.drop_last()) + amounts.last()
    }
}

/// The sum of the winnings on top of the stake for winning stakes `amounts`.
pub open spec fn sum_extras(amounts: Seq<u64>, winning: u64, losing: u64) -> int
    decreases amounts.len(),
{
    if amounts.len() == 0 {
        0
    } else {
        sum_extras(amounts.drop_last(), winning, losing) + payout_extra(
            amounts.last() as int,
            winning as int,
            losing as int,
        )
    }
}

/// The sum of the net payouts for winning stakes `amounts`.
pub open spec fn sum_net_payouts(amounts: Seq<u64>, winning: u64, losing: u64, fee_percentage: u8) -> int
    decreases amounts.len(),
{
    if amounts.len() == 0 {
        0
    } else {
        sum_net_payouts(amounts.drop_last(), winning, losing, fee_percentage) + net_payout_value(
            amounts.last() as int,
            winning as int,
            losing as int,
            fee_percentage as int,
        )
    }
}

proof fn lemma_extras_scaled(amounts: Seq<u64>, winning: u64, losing: u64)
    requires
        winning > 0,
    ensures
        0 <= sum_extras(amounts, winning, losing),
        sum_extras(amounts, winning, losing) * winning <= sum_amounts(amounts) * losing,
    decreases amounts.len(),
{
    if amounts.len() > 0 {
        let rest = amounts.drop_last();
        let a = amounts.last() as int;
        let w = winning as int;
        let l = losing as int;
        lemma_extras_scaled(rest, winning, losing);
        let e = sum_extras(rest, winning, losing);
        let s = sum_amounts(rest);
        vstd::arithmetic::div_mod::lemma_fundamental_div_mod(a * l, w);
        vstd::arithmetic::div_mod::lemma_mod_pos_bound(a * l, w);
        assert(0 <= a * l) by (nonlinear_arith)
            requires
                0 <= a,
                0 <= l,
        ;
        vstd::arithmetic::div_mod::lemma_div_pos_is_pos(a * l, w);
        let x = a * l / w;
        assert((e + x) * w <= (s + a) * l) by (nonlinear_arith)
            requires
                e * w <= s * l,
                a * l == w * x + (a * l) % w,
                0 <= (a * l) % w,
        ;
    }
}

proof fn lemma_net_at_most_gross(amount: int, winning: int, losing: int, fee_percentage: int)
    requires
        0 <= amount,
        0 < winning,
        0 <= losing,
        0 <= fee_percentage,
    ensures
        net_payout_value(amount, winning, losing, fee_percentage) <= amount + payout_extra(
            amount,
            winning,
            losing,
        ),
{
    assert(0 <= amount * losing) by (nonlinear_arith)
        requires
            0 <= amount,
            0 <= losing,
    ;
    vstd::arithmetic::div_mod::lemma_div_pos_is_pos(amount * losing, winning);
    let g = gross_payout(amount, winning, losing);
    assert(0 <= g * fee_percentage) by (nonlinear_arith)
        requires
            0 <= g,
            0 <= fee_percentage,
    ;
    vstd::arithmetic::div_mod::lemma_div_pos_is_pos(g * fee_percentage, 100);
    assert(payout_fee(g, fee_percentage) >= 0);
}

proof fn lemma_net_below_extras(amounts: Seq<u64>, winning: u64, losing: u64, fee_percentage: u8)
    requires
        winning > 0,
    ensures
        sum_net_payouts(amounts, winning, losing, fee_percentage) <= sum_amounts(amounts)
            + sum_extras(amounts, winning, losing),
    decreases amounts.len(),
{
    if amounts.len() > 0 {
        lemma_net_below_extras(amounts.drop_last(), winning, losing, fee_percentage);
        lemma_net_at_most_gross(
            amounts.last() as int,
            winning as int,
            losing as int,
            fee_percentage as int,
        );
    }
}

/// Rounding never overpays: for winning stakes whose sum is covered by the winning
/// pool, the net payouts together come to at most those stakes plus the losing pool.
pub proof fn lemma_payouts_bounded(amounts: Seq<u64>, winning: u64, losing: u64, fee_percentage: u8)
    requires
        winning > 0,
        sum_amounts(amounts) <= winning,
    ensures
        sum_net_payouts(amounts, winning, losing, fee_percentage) <= sum_amounts(amounts)
            + losing,
{
    lemma_net_below_extras(amounts, winning, losing, fee_percentage);
    lemma_extras_scaled(amounts, winning, losing);
    let e = sum_extras(amounts, winning, losing);
    let s = sum_amounts(amounts);
    let w = winning as int;
    let l = losing as int;
    assert(e <= l) by (nonlinear_arith)
        requires
            e * w <= s * l,
            s <= w,
            0 < w,
            0 <= l,
            0 <= e,
    ;
}

/// A proposal that `resolve_market` accepted: `pre` were the records before it,
/// `post` after it, and `bond` the bond it took.
pub open spec fn accepted_proposal(pre: ResolveMarket, post: ResolveMarket, outcome: bool, bond: u64) -> bool {
    &&& resolve_market_error(pre) is None
    &&& bond == required_bond(pre.market)
    &&& post == (ResolveMarket { market: market_after_proposal(pre, outcome), ..pre })
}

/// Two to the power `n`.
pub open spec fn pow2(n: nat) -> int
    decreases n,
{
    if n == 0 {
        1
    } else {
        2 * pow2((n - 1) as nat)
    }
}

/// The bond schedule: along any run of accepted proposals on one market that began
/// with no proposal, the k-th proposal carries the minimum bond times 2^(k-1), the k
/// bonds together come to the minimum times 2^k - 1, the last proposer stands, and
/// the market is still active.
pub proof fn lemma_bond_schedule(
    pres: Seq<ResolveMarket>,
    posts: Seq<ResolveMarket>,
    outcomes: Seq<bool>,
    bonds: Seq<u64>,
)
    requires
        bonds.len() > 0,
        pres.len() == bonds.len(),
        posts.len() == bonds.len(),
        outcomes.len() == bonds.len(),
        pres[0].market.resolution_proposer is None,
        forall|i: int|
            0 <= i < bonds.len() ==> accepted_proposal(#[trigger] pres[i], posts[i], outcomes[i], bonds[i]),
        forall|i: int| 0 < i < bonds.len() ==> (#[trigger] pres[i]).market == posts[i - 1].market,
    ensures
        bonds.last() == MIN_RESOLUTION_BOND * pow2((bonds.len() - 1) as nat),
        posts.last().market.resolution_bond == bonds.last(),
        sum_amounts(bonds) == MIN_RESOLUTION_BOND * (pow2(bonds.len()) - 1),
        posts.last().market.resolution_proposer == Some(pres.last().proposer),
        posts.last().market.status == MarketStatus::Active,
    decreases bonds.len(),
{
    let n = bonds.len() as int;
    assert(accepted_proposal(pres[n - 1], posts[n - 1], outcomes[n - 1], bonds[n - 1]));
    if n > 1 {
        let ps = pres.take(n - 1);
        let qs = posts.take(n - 1);
        let os = outcomes.take(n - 1);
        let bs = bonds.take(n - 1);
        assert forall|i: int| 0 <= i < bs.len() implies accepted_proposal(
            #[trigger] ps[i],
            qs[i],
            os[i],
            bs[i],
        ) by {
            assert(accepted_proposal(pres[i], posts[i], outcomes[i], bonds[i]));
        }
        assert forall|i: int| 0 < i < bs.len() implies (#[trigger] ps[i]).market == qs[i
            - 1].market by {
            assert(pres[i].market == posts[i - 1].market);
        }
        lemma_bond_schedule(ps, qs, os, bs);
        assert(bonds.drop_last() =~= bs);
        assert(qs.last() == posts[n - 2]);
        assert(pres[n - 1].market == posts[n - 2].market);
        assert(pow2((n - 1) as nat) == 2 * pow2((n - 2) as nat));
        assert(pow2(n as nat) == 2 * pow2((n - 1) as nat));
        assert(sum_amounts(bonds) == sum_amounts(bs) + bonds[n - 1]);
    } else {
        assert(bonds.drop_last() =~= Seq::<u64>::empty());
        assert(sum_amounts(bonds.drop_last()) == 0);
        assert(pow2(1) == 2 * pow2(0));
    }
}

/// A losing claim pays nothing, marks the bet claimed, ends the winning streak,
/// lowers the net profit by the stake and counts one more loss, leaving the win
/// figures as they were.
pub proof fn lemma_losing_claim(pre: ClaimWinnings, post: ClaimWinnings)
    requires
        claim_winnings_error(pre) is None,
        claim_applied(pre, post),
        !bet_won(pre),
    ensures
        claim_payout(pre) == 0,
        post.bet.payout == 0,
        post.bet.claimed,
        post.user_stats.current_streak == 0,
        post.user_stats.net_profit == pre.user_stats.net_profit - pre.bet.amount,
        post.user_stats.total_lost == pre.user_stats.total_lost + pre.bet.amount,
        post.user_stats.loss_count == pre.user_stats.loss_count + 1,
        post.user_stats.total_won == pre.user_stats.total_won,
        post.user_stats.win_count == pre.user_stats.win_count,
        post.user_stats.best_streak == pre.user_stats.best_streak,
{
}

/// The sum of the stakes of the bets claimed in `claims`.
pub open spec fn sum_claimed_stakes(claims: Seq<ClaimWinnings>) -> int
    decreases claims.len(),
{
    if claims.len() == 0 {
        0
    } else {
        sum_claimed_stakes(claims.drop_last()) + claims.last().bet.amount
    }
}

/// The sum of the payouts recorded on the bets of `claims`.
pub open spec fn sum_recorded_payouts(claims: Seq<ClaimWinnings>) -> int
    decreases claims.len(),
{
    if claims.len() == 0 {
        0
    } else {
        sum_recorded_payouts(claims.drop_last()) + claims.last().bet.payout
    }
}

proof fn lemma_claim_sums(pres: Seq<ClaimWinnings>, posts: Seq<ClaimWinnings>, m: Market)
    requires
        pres.len() == posts.len(),
        winning_pool(m) > 0,
        forall|i: int|
            0 <= i < pres.len() ==> {
                &&& (#[trigger] pres[i]).market == m
                &&& claim_winnings_error(pres[i]) is None
                &&& claim_applied(pres[i], posts[i])
                &&& bet_won(pres[i])
            },
    ensures
        sum_amounts(pres.map_values(|c: ClaimWinnings| c.bet.amount)) == sum_claimed_stakes(pres),
        sum_net_payouts(
            pres.map_values(|c: ClaimWinnings| c.bet.amount),
            winning_pool(m),
            losing_pool(m),
            m.fee_percentage,
        ) == sum_recorded_payouts(posts),
    decreases pres.len(),
{
    let amounts = pres.map_values(|c: ClaimWinnings| c.bet.amount);
    if pres.len() > 0 {
        let n = pres.len() as int;
        let c = pres[n - 1];
        assert(c.market == m && claim_winnings_error(c) is None && claim_applied(c, posts[n - 1])
            && bet_won(c));
        lemma_claim_sums(pres.drop_last(), posts.drop_last(), m);
        assert(amounts.drop_last() =~= pres.drop_last().map_values(
            |c: ClaimWinnings| c.bet.amount,
        ));
        assert(!net_payout_fails(
            c.bet.amount as int,
            winning_pool(m) as int,
            losing_pool(m) as int,
            m.fee_percentage as int,
        ));
        lemma_net_at_most_gross(
            c.bet.amount as int,
            winning_pool(m) as int,
            losing_pool(m) as int,
            m.fee_percentage as int,
        );
        assert(posts[n - 1].bet.payout == net_payout_value(
            c.bet.amount as int,
            winning_pool(m) as int,
            losing_pool(m) as int,
            m.fee_percentage as int,
        ));
    }
}

/// Rounding never overpays a run of claims: when the winning bets of one final
/// market are each claimed successfully, and their stakes together are covered by
/// the winning pool, the payouts recorded on them come to at most those stakes plus
/// the losing pool.
pub proof fn lemma_claims_bounded(pres: Seq<ClaimWinnings>, posts: Seq<ClaimWinnings>, m: Market)
    requires
        pres.len() == posts.len(),
        forall|i: int|
            0 <= i < pres.len() ==> {
                &&& (#[trigger] pres[i]).market == m
                &&& claim_winnings_error(pres[i]) is None
                &&& claim_applied(pres[i], posts[i])
                &&& bet_won(pres[i])
            },
        sum_claimed_stakes(pres) <= winning_pool(m),
    ensures
        sum_recorded_payouts(posts) <= sum_claimed_stakes(pres) + losing_pool(m),
{
    if pres.len() > 0 {
        let c = pres[0];
        assert(c.market == m && claim_winnings_error(c) is None && bet_won(c));
        lemma_claim_sums(pres, posts, m);
        lemma_payouts_bounded(
            pres.map_values(|c: ClaimWinnings| c.bet.amount),
            winning_pool(m),
            losing_pool(m),
            m.fee_percentage,
        );
    } else {
        assert(sum_recorded_payouts(posts) == 0);
        assert(sum_claimed_stakes(pres) == 0);
    }
}

} // verus!
