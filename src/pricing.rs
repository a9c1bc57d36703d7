use vstd::prelude::*;

use crate::error::MarketError;

verus! {

/// Number of tokens a stake of `amount` buys on a side whose pool is `selected`,
/// against an opposite pool of `opposite`.
pub open spec fn swap_quote(amount: int, selected: int, opposite: int) -> int {
    amount * opposite / (selected + amount)
}

/// The winnings on top of the stake for a winning bet of `amount`.
pub open spec fn payout_extra(amount: int, winning: int, losing: int) -> int {
    amount * losing / winning
}

/// The stake plus its winnings, before the fee.
pub open spec fn gross_payout(amount: int, winning: int, losing: int) -> int {
    amount + payout_extra(amount, winning, losing)
}

/// The fee kept out of a gross payout.
pub open spec fn payout_fee(gross: int, fee_percentage: int) -> int {
    gross * fee_percentage / 100
}

/// What a winning bet is paid after the fee.
pub open spec fn net_payout_value(amount: int, winning: int, losing: int, fee_percentage: int) -> int {
    gross_payout(amount, winning, losing) - payout_fee(
        gross_payout(amount, winning, losing),
        fee_percentage,
    )
}

/// Whether some step of the payout computation leaves the range of `u64` or divides by zero.
pub open spec fn net_payout_fails(amount: int, winning: int, losing: int, fee_percentage: int) -> bool {
    let gross = gross_payout(amount, winning, losing);
    ||| winning == 0
    ||| payout_extra(amount, winning, losing) > u64::MAX
    ||| gross > u64::MAX
    ||| gross * fee_percentage > u64::MAX
    ||| payout_fee(gross, fee_percentage) > gross
}

proof fn lemma_quotient_at_most(a: int, b: int, d: int)
    requires
        0 <= a <= d,
        0 <= b,
        0 < d,
    ensures
        0 <= a * b / d <= b,
{
    assert(a * b <= d * b) by (nonlinear_arith)
        requires
            0 <= a <= d,
            0 <= b,
    ;
    assert(0 <= a * b) by (nonlinear_arith)
        requires
            0 <= a,
            0 <= b,
    ;
    vstd::arithmetic::div_mod::lemma_div_is_ordered(a * b, d * b, d);
    vstd::arithmetic::div_mod::lemma_div_multiples_vanish(b, d);
    vstd::arithmetic::div_mod::lemma_div_pos_is_pos(a * b, d);
}

proof fn lemma_product_fits(a: u64, b: u64)
    ensures
        0 <= (a as int) * (b as int) <= u128::MAX,
{
    assert(0 <= (a as int) * (b as int) <= (u64::MAX as int) * (u64::MAX as int)) by (nonlinear_arith)
        requires
            0 <= a <= u64::MAX,
            0 <= b <= u64::MAX,
    ;
}

/// Quote for a stake of `amount` on the side whose pool is `selected_pool`:
/// `amount * opposite_pool / (selected_pool + amount)`, rounded down, computed in 128 bits.
/// It fails only where the divisor is zero.
pub fn swap_output(amount: u64, selected_pool: u64, opposite_pool: u64) -> (r: Result<
    u64,
    MarketError,
>)
    ensures
        r is Ok <==> selected_pool + amount > 0,
        r is Err ==> r == Err::<u64, MarketError>(MarketError::MathOverflow),
        r matches Ok(t) ==> t == swap_quote(amount as int, selected_pool as int, opposite_pool as int),
{
    let divisor: u128 = selected_pool as u128 + amount as u128;
    if divisor == 0 {
        return Err(MarketError::MathOverflow);
    }
    proof {
        lemma_product_fits(amount, opposite_pool);
        lemma_quotient_at_most(amount as int, opposite_pool as int, divisor as int);
    }
    let product: u128 = amount as u128 * opposite_pool as u128;
    let tokens: u128 = product / divisor;
    Ok(tokens as u64)
}

/// The winnings on top of the stake: `bet_amount * losing_pool / winning_pool`, rounded down.
/// Fails where the winning pool is empty or the quotient does not fit in `u64`.
pub fn payout_ratio(bet_amount: u64, winning_pool: u64, losing_pool: u64) -> (r: Result<
    u64,
    MarketError,
>)
    ensures
        r is Ok <==> (winning_pool > 0 && payout_extra(
            bet_amount as int,
            winning_pool as int,
            losing_pool as int,
        ) <= u64::MAX),
        r is Err ==> r == Err::<u64, MarketError>(MarketError::MathOverflow),
        r matches Ok(x) ==> x == payout_extra(
            bet_amount as int,
            winning_pool as int,
            losing_pool as int,
        ),
{
    if winning_pool == 0 {
        return Err(MarketError::MathOverflow);
    }
    proof {
        lemma_product_fits(bet_amount, losing_pool);
    }
    let product: u128 = bet_amount as u128 * losing_pool as u128;
    let extra: u128 = product / winning_pool as u128;
    if extra > u64::MAX as u128 {
        return Err(MarketError::MathOverflow);
    }
    Ok(extra as u64)
}

/// What a winning bet of `bet_amount` is paid: the stake plus its winnings, less
/// `fee_percentage` percent of that sum rounded down. Every step is checked.
pub fn net_payout(bet_amount: u64, winning_pool: u64, losing_pool: u64, fee_percentage: u8) -> (r:
    Result<u64, MarketError>)
    ensures
        r is Ok <==> !net_payout_fails(
            bet_amount as int,
            winning_pool as int,
            losing_pool as int,
            fee_percentage as int,
        ),
        r is Err ==> r == Err::<u64, MarketError>(MarketError::MathOverflow),
        r matches Ok(p) ==> p == net_payout_value(
            bet_amount as int,
            winning_pool as int,
            losing_pool as int,
            fee_percentage as int,
        ),
{
    let extra = payout_ratio(bet_amount, winning_pool, losing_pool)?;
    let total = match bet_amount.checked_add(extra) {
        Some(t) => t,
        None => return Err(MarketError::MathOverflow),
    };
    let scaled = match total.checked_mul(fee_percentage as u64) {
        Some(s) => s,
        None => return Err(MarketError::MathOverflow),
    };
    let fee = scaled / 100;
    match total.checked_sub(fee) {
        Some(p) => Ok(p),
        None => Err(MarketError::MathOverflow),
    }
}

} // verus!
