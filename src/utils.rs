use vstd::prelude::*;
use vstd::arithmetic::div_mod::{lemma_div_is_ordered, lemma_div_multiples_vanish};
use crate::error::ErrorCode;

verus! {

/// The reserve left on the opposing side once `pool_in` grows by `amount`
/// and the product `pool_in * pool_out` is kept (truncating division).
pub open spec fn reserve_after(pool_in: int, pool_out: int, amount: int) -> int {
    (pool_in * pool_out) / (pool_in + amount)
}

/// What a purchase of `amount` on the `pool_in` side costs.
pub open spec fn trade_cost(pool_in: int, pool_out: int, amount: int) -> int {
    pool_out - reserve_after(pool_in, pool_out, amount)
}

/// The reserve of the side being bought.
pub open spec fn side_in(yes_pool: u64, no_pool: u64, buy_yes: bool) -> int {
    if buy_yes { yes_pool as int } else { no_pool as int }
}

/// The reserve of the opposing side.
pub open spec fn side_out(yes_pool: u64, no_pool: u64, buy_yes: bool) -> int {
    if buy_yes { no_pool as int } else { yes_pool as int }
}

/// The cost of buying `amount` of one side against the given reserves.
pub open spec fn bonding_cost(yes_pool: u64, no_pool: u64, amount: u64, buy_yes: bool) -> int {
    trade_cost(side_in(yes_pool, no_pool, buy_yes), side_out(yes_pool, no_pool, buy_yes), amount as int)
}

/// The cost never exceeds the opposing reserve and is never negative.
pub proof fn lemma_cost_bounds(pool_in: int, pool_out: int, amount: int)
    requires
        pool_in >= 0,
        pool_out >= 0,
        amount >= 0,
        pool_in + amount > 0,
    ensures
        0 <= reserve_after(pool_in, pool_out, amount) <= pool_out,
        0 <= trade_cost(pool_in, pool_out, amount) <= pool_out,
{
    let d = pool_in + amount;
    assert(pool_in * pool_out <= d * pool_out) by (nonlinear_arith)
        requires d == pool_in + amount, amount >= 0, pool_out >= 0;
    assert(0 <= pool_in * pool_out) by (nonlinear_arith)
        requires pool_in >= 0, pool_out >= 0;
    lemma_div_is_ordered(pool_in * pool_out, d * pool_out, d);
    lemma_div_multiples_vanish(pool_out, d);
    lemma_div_is_ordered(0, pool_in * pool_out, d);
}

/// Prices a purchase on the constant-product curve `yes_pool * no_pool = k`.
///
/// Buying YES grows the YES reserve by `amount`; the cost is how far the NO
/// reserve would have to fall for the product to stay at `k`. Buying NO is
/// symmetric. Returns `(cost, claims_out)`, where `claims_out == amount`.
/// The product is formed in 128 bits, so it never overflows; the only
/// failure is a bought side whose new reserve is zero.
pub fn calculate_bonding_curve(yes_pool: u64, no_pool: u64, amount: u64, buy_yes: bool) -> (r: Result<(u64, u64), ErrorCode>)
    ensures
        side_in(yes_pool, no_pool, buy_yes) + amount == 0 ==> r == Err::<(u64, u64), ErrorCode>(ErrorCode::DivisionByZero),
        side_in(yes_pool, no_pool, buy_yes) + amount != 0 ==> r == Ok::<(u64, u64), ErrorCode>(
            (bonding_cost(yes_pool, no_pool, amount, buy_yes) as u64, amount),
        ),
        r is Ok ==> 0 <= bonding_cost(yes_pool, no_pool, amount, buy_yes) <= side_out(yes_pool, no_pool, buy_yes),
{
    let (pool_in, pool_out): (u64, u64) = if buy_yes { (yes_pool, no_pool) } else { (no_pool, yes_pool) };
    assert((pool_in as int) * (pool_out as int) <= u64::MAX as int * u64::MAX as int) by (nonlinear_arith)
        requires pool_in <= u64::MAX, pool_out <= u64::MAX, pool_in >= 0, pool_out >= 0;
    let k: u128 = match (pool_in as u128).checked_mul(pool_out as u128) {
        Some(v) => v,
        None => return Err(ErrorCode::MathOverflow),
    };
    let new_in: u128 = match (pool_in as u128).checked_add(amount as u128) {
        Some(v) => v,
        None => return Err(ErrorCode::MathOverflow),
    };
    if new_in == 0 {
        return Err(ErrorCode::DivisionByZero);
    }
    let new_out: u128 = k / new_in;
    proof {
        lemma_cost_bounds(pool_in as int, pool_out as int, amount as int);
    }
    if (pool_out as u128) < new_out {
        return Err(ErrorCode::MathUnderflow);
    }
    let cost: u128 = pool_out as u128 - new_out;
    Ok((cost as u64, amount))
}

} // verus!
