use vstd::prelude::*;
use vstd::string::*;
use crate::error::ErrorCode;
use crate::state::{Config, Market, MarketCategory, MarketStatus, Pubkey, MAX_MARKET_DURATION, RESOLUTION_DELAY};
use crate::utils::{bonding_cost, calculate_bonding_curve, lemma_cost_bounds, reserve_after, side_in, side_out, trade_cost};
use vstd::arithmetic::div_mod::{lemma_div_multiples_vanish, lemma_fundamental_div_mod, lemma_mod_pos_bound};

verus! {

/// Longest question, in characters.
pub const MAX_QUESTION_LEN: usize = 200;

/// Longest description, in characters.
pub const MAX_DESCRIPTION_LEN: usize = 500;

/// Longest resolution-source text, in characters.
pub const MAX_SOURCE_LEN: usize = 200;

/// Smallest initial liquidity whatever the configuration: enough for one
/// unit in each reserve.
pub const MIN_LIQUIDITY: u64 = 2;

/// Smallest bet, in the settlement currency's smallest unit (1 USDC).
pub const MIN_BET: u64 = 1000000;

/// Reported when a market is created.
#[derive(Clone, Debug)]
pub struct MarketCreated {
    pub market: Pubkey,
    pub creator: Pubkey,
    pub question: String,
    pub category: MarketCategory,
    pub end_time: i64,
    pub initial_liquidity: u64,
}

/// Reported when a bet is placed.
#[derive(Clone, Copy, Debug)]
pub struct BetPlaced {
    pub market: Pubkey,
    pub user: Pubkey,
    pub bet_on_yes: bool,
    pub amount: u64,
    pub cost: u64,
    pub yes_pool: u64,
    pub no_pool: u64,
}

/// The first check that market creation fails, if any.
pub open spec fn create_market_error(
    config: Config,
    question: Seq<char>,
    description: Seq<char>,
    resolution_source: Seq<char>,
    end_time: i64,
    initial_liquidity: u64,
    now: i64,
) -> Option<ErrorCode> {
    if question.len() > MAX_QUESTION_LEN {
        Some(ErrorCode::QuestionTooLong)
    } else if description.len() > MAX_DESCRIPTION_LEN {
        Some(ErrorCode::DescriptionTooLong)
    } else if resolution_source.len() > MAX_SOURCE_LEN {
        Some(ErrorCode::SourceTooLong)
    } else if initial_liquidity < config.min_liquidity || initial_liquidity < MIN_LIQUIDITY {
        Some(ErrorCode::InsufficientLiquidity)
    } else if end_time <= now {
        Some(ErrorCode::InvalidEndTime)
    } else if end_time - now > MAX_MARKET_DURATION {
        Some(ErrorCode::EndTimeTooFar)
    } else if end_time + RESOLUTION_DELAY > i64::MAX {
        Some(ErrorCode::MathOverflow)
    } else {
        None
    }
}

/// Creates a market whose trading closes at `end_time`, backed by
/// `initial_liquidity` split evenly between the YES and NO reserves.
/// Liquidity below the configured minimum, or too small to give each
/// reserve at least one unit, fails with `InsufficientLiquidity`.
///
/// On success the caller moves `initial_liquidity` from the creator into the
/// market's custody; a failed transfer abandons the new market.
pub fn create_market(
    config: &Config,
    market_key: Pubkey,
    creator: Pubkey,
    yes_mint: Pubkey,
    no_mint: Pubkey,
    bump: u8,
    question: String,
    description: String,
    category: u8,
    end_time: i64,
    resolution_source: String,
    initial_liquidity: u64,
    now: i64,
) -> (r: Result<(Market, MarketCreated), ErrorCode>)
    ensures
        match r {
            Err(e) => create_market_error(
                *config,
                question@,
                description@,
                resolution_source@,
                end_time,
                initial_liquidity,
                now,
            ) == Some(e),
            Ok((m, ev)) => {
                &&& create_market_error(
                    *config,
                    question@,
                    description@,
                    resolution_source@,
                    end_time,
                    initial_liquidity,
                    now,
                ) is None
                &&& m.wf()
                &&& m.creator == creator
                &&& m.question@ == question@
                &&& m.description@ == description@
                &&& m.category == MarketCategory::spec_from_code(category)
                &&& m.created_at == now
                &&& m.end_time == end_time
                &&& m.resolution_time == end_time + RESOLUTION_DELAY
                &&& m.resolution_source@ == resolution_source@
                &&& m.status == MarketStatus::Active
                &&& m.outcome is None
                &&& m.resolved_at is None
                &&& m.total_liquidity == initial_liquidity
                &&& m.yes_pool == initial_liquidity / 2
                &&& m.no_pool == initial_liquidity / 2
                &&& m.yes_mint == yes_mint
                &&& m.no_mint == no_mint
                &&& m.volume == 0
                &&& m.unique_bettors == 0
                &&& m.bump == bump
                &&& ev.market == market_key
                &&& ev.creator == creator
                &&& ev.question@ == question@
                &&& ev.category == m.category
                &&& ev.end_time == end_time
                &&& ev.initial_liquidity == initial_liquidity
            },
        },
{
    if question.as_str().unicode_len() > MAX_QUESTION_LEN {
        return Err(ErrorCode::QuestionTooLong);
    }
    if description.as_str().unicode_len() > MAX_DESCRIPTION_LEN {
        return Err(ErrorCode::DescriptionTooLong);
    }
    if resolution_source.as_str().unicode_len() > MAX_SOURCE_LEN {
        return Err(ErrorCode::SourceTooLong);
    }
    if initial_liquidity < config.min_liquidity || initial_liquidity < MIN_LIQUIDITY {
        return Err(ErrorCode::InsufficientLiquidity);
    }
    if end_time <= now {
        return Err(ErrorCode::InvalidEndTime);
    }
    if (end_time as i128) - (now as i128) > MAX_MARKET_DURATION as i128 {
        return Err(ErrorCode::EndTimeTooFar);
    }
    let resolution_time: i64 = match end_time.checked_add(RESOLUTION_DELAY) {
        Some(t) => t,
        None => return Err(ErrorCode::MathOverflow),
    };
    let category = MarketCategory::from_code(category);
    let event = MarketCreated {
        market: market_key,
        creator,
        question: question.clone(),
        category,
        end_time,
        initial_liquidity,
    };
    let market = Market {
        creator,
        question,
        description,
        category,
        created_at: now,
        end_time,
        resolution_time,
        resolution_source,
        status: MarketStatus::Active,
        outcome: None,
        resolved_at: None,
        total_liquidity: initial_liquidity,
        yes_pool: initial_liquidity / 2,
        no_pool: initial_liquidity / 2,
        yes_mint,
        no_mint,
        volume: 0,
        unique_bettors: 0,
        bump,
    };
    Ok((market, event))
}

/// The reserves after a bet: the bought side grows by `amount`, the other is
/// left as it was.
pub open spec fn pools_after_bet(yes_pool: u64, no_pool: u64, amount: u64, buy_yes: bool) -> (int, int) {
    if buy_yes {
        (yes_pool + amount, no_pool as int)
    } else {
        (yes_pool as int, no_pool + amount)
    }
}

/// The first check that a bet fails, if any.
pub open spec fn place_bet_error(m: Market, amount: u64, bet_on_yes: bool, now: i64) -> Option<ErrorCode> {
    let cost = bonding_cost(m.yes_pool, m.no_pool, amount, bet_on_yes);
    if m.status != MarketStatus::Active {
        Some(ErrorCode::MarketNotActive)
    } else if now >= m.end_time {
        Some(ErrorCode::MarketEnded)
    } else if amount < MIN_BET {
        Some(ErrorCode::BetTooSmall)
    } else if side_in(m.yes_pool, m.no_pool, bet_on_yes) + amount > u64::MAX {
        Some(ErrorCode::MathOverflow)
    } else if m.total_liquidity + cost > u64::MAX || m.volume + cost > u64::MAX {
        Some(ErrorCode::MathOverflow)
    } else {
        None
    }
}

/// The market once a bet of `amount` on one side, costing `cost`, is applied.
pub open spec fn market_after_bet(m: Market, amount: u64, bet_on_yes: bool, cost: int) -> Market {
    let (yes, no) = pools_after_bet(m.yes_pool, m.no_pool, amount, bet_on_yes);
    Market {
        yes_pool: yes as u64,
        no_pool: no as u64,
        total_liquidity: (m.total_liquidity + cost) as u64,
        volume: (m.volume + cost) as u64,
        ..m
    }
}

/// Buys `amount` claims on one side of an active market whose trading is
/// still open, at the price the bonding curve gives.
///
/// On success the market's reserves, liquidity and volume are updated and
/// the event says what the caller must do on the ledger: move `cost` from
/// the bettor into the market's custody and mint `amount` claims of the
/// chosen side to the bettor. On failure the market is left unchanged.
pub fn place_bet(market: &mut Market, market_key: Pubkey, user: Pubkey, amount: u64, bet_on_yes: bool, now: i64) -> (r: Result<BetPlaced, ErrorCode>)
    ensures
        match r {
            Err(e) => {
                &&& place_bet_error(*old(market), amount, bet_on_yes, now) == Some(e)
                &&& *final(market) == *old(market)
            },
            Ok(ev) => {
                &&& old(market).wf() ==> final(market).wf()
                &&& place_bet_error(*old(market), amount, bet_on_yes, now) is None
                &&& *final(market) == market_after_bet(
                    *old(market),
                    amount,
                    bet_on_yes,
                    bonding_cost(old(market).yes_pool, old(market).no_pool, amount, bet_on_yes),
                )
                &&& ev.market == market_key
                &&& ev.user == user
                &&& ev.bet_on_yes == bet_on_yes
                &&& ev.amount == amount
                &&& ev.cost == bonding_cost(old(market).yes_pool, old(market).no_pool, amount, bet_on_yes)
                &&& ev.yes_pool == final(market).yes_pool
                &&& ev.no_pool == final(market).no_pool
            },
        },
{
    if market.status != MarketStatus::Active {
        return Err(ErrorCode::MarketNotActive);
    }
    if now >= market.end_time {
        return Err(ErrorCode::MarketEnded);
    }
    if amount < MIN_BET {
        return Err(ErrorCode::BetTooSmall);
    }
    let (cost, tokens_out) = match calculate_bonding_curve(market.yes_pool, market.no_pool, amount, bet_on_yes) {
        Ok(priced) => priced,
        Err(e) => return Err(e),
    };
    proof {
        lemma_cost_bounds(
            side_in(market.yes_pool, market.no_pool, bet_on_yes),
            side_out(market.yes_pool, market.no_pool, bet_on_yes),
            amount as int,
        );
    }
    let bought: u64 = if bet_on_yes { market.yes_pool } else { market.no_pool };
    let new_bought: u64 = match bought.checked_add(amount) {
        Some(v) => v,
        None => return Err(ErrorCode::MathOverflow),
    };
    let total_liquidity: u64 = match market.total_liquidity.checked_add(cost) {
        Some(v) => v,
        None => return Err(ErrorCode::MathOverflow),
    };
    let volume: u64 = match market.volume.checked_add(cost) {
        Some(v) => v,
        None => return Err(ErrorCode::MathOverflow),
    };
    if bet_on_yes {
        market.yes_pool = new_bought;
    } else {
        market.no_pool = new_bought;
    }
    market.total_liquidity = total_liquidity;
    market.volume = volume;
    Ok(BetPlaced {
        market: market_key,
        user,
        bet_on_yes,
        amount: tokens_out,
        cost,
        yes_pool: market.yes_pool,
        no_pool: market.no_pool,
    })
}

/// A bet never shrinks the pool product: after the reserves move as
/// `place_bet` moves them, `yes_pool * no_pool` is at least what it was.
/// The reserves the curve prices against keep the product exactly, up to
/// the truncation of the division: the bought side's new reserve times the
/// opposing reserve left after the trade is at most `k`, and falls short of
/// it by less than the new reserve.
pub proof fn lemma_bet_keeps_product(yes_pool: u64, no_pool: u64, amount: u64, buy_yes: bool)
    ensures
        pools_after_bet(yes_pool, no_pool, amount, buy_yes).0 * pools_after_bet(yes_pool, no_pool, amount, buy_yes).1
            >= yes_pool * no_pool,
        ({
            let pool_in = side_in(yes_pool, no_pool, buy_yes);
            let pool_out = side_out(yes_pool, no_pool, buy_yes);
            let new_in = pool_in + amount;
            let new_out = reserve_after(pool_in, pool_out, amount as int);
            new_in > 0 ==> new_in * new_out <= yes_pool * no_pool < new_in * new_out + new_in
        }),
{
    let y = yes_pool as int;
    let n = no_pool as int;
    let a = amount as int;
    assert((y + a) * n >= y * n) by (nonlinear_arith)
        requires a >= 0, n >= 0;
    assert(y * (n + a) >= y * n) by (nonlinear_arith)
        requires a >= 0, y >= 0;
    let pool_in = side_in(yes_pool, no_pool, buy_yes);
    let pool_out = side_out(yes_pool, no_pool, buy_yes);
    let new_in = pool_in + a;
    if new_in > 0 {
        let k = pool_in * pool_out;
        assert(k == y * n) by (nonlinear_arith)
            requires
                k == pool_in * pool_out,
                (pool_in == y && pool_out == n) || (pool_in == n && pool_out == y);
        lemma_fundamental_div_mod(k, new_in);
        let q = k / new_in;
        let rem = k % new_in;
        assert(0 <= rem < new_in);
        assert(new_in * q + rem == k);
    }
}

/// The implied probability of YES, `yes_pool / (yes_pool + no_pool)`, is
/// below that of the other reserves (compared without division).
pub open spec fn yes_share_lt(yes1: int, no1: int, yes2: int, no2: int) -> bool {
    yes1 * (yes2 + no2) < yes2 * (yes1 + no1)
}

/// A bet moves the market in the direction it asks for: the bought side's
/// reserve strictly grows, the other stays, and the implied probability of
/// the bought side strictly rises.
pub proof fn lemma_bet_moves_price(yes_pool: u64, no_pool: u64, amount: u64, buy_yes: bool)
    requires
        yes_pool > 0,
        no_pool > 0,
        amount > 0,
    ensures
        ({
            let (yes2, no2) = pools_after_bet(yes_pool, no_pool, amount, buy_yes);
            &&& buy_yes ==> yes2 > yes_pool && no2 == no_pool
            &&& !buy_yes ==> no2 > no_pool && yes2 == yes_pool
            &&& buy_yes ==> yes_share_lt(yes_pool as int, no_pool as int, yes2, no2)
            &&& !buy_yes ==> yes_share_lt(yes2, no2, yes_pool as int, no_pool as int)
        }),
{
    let y = yes_pool as int;
    let n = no_pool as int;
    let a = amount as int;
    if buy_yes {
        assert(y * ((y + a) + n) < (y + a) * (y + n)) by (nonlinear_arith)
            requires y > 0, n > 0, a > 0;
    } else {
        assert(y * (y + n) < y * (y + n + a)) by (nonlinear_arith)
            requires y > 0, n > 0, a > 0;
    }
}

/// Trades on the curve are not inverse to one another. Price a YES buy of
/// `amount`, move to the reserves the curve recomputes (`yes_pool + amount`
/// and `k / (yes_pool + amount)`), and from there price a NO buy of the cost
/// the first trade returned: the NO reserve comes back exactly, while the
/// YES reserve comes back at most to where it started, and exactly there
/// only when `yes_pool + amount` divides `yes_pool * no_pool`. Otherwise the
/// truncation of the division leaves it strictly below.
pub proof fn lemma_curve_round_trip(yes_pool: u64, no_pool: u64, amount: u64)
    requires
        yes_pool > 0,
        no_pool > 0,
    ensures
        ({
            let y = yes_pool as int;
            let n = no_pool as int;
            let a = amount as int;
            let new_no = reserve_after(y, n, a);
            let cost = trade_cost(y, n, a);
            let back_yes = reserve_after(new_no, y + a, cost);
            &&& new_no + cost == n
            &&& back_yes <= y
            &&& (back_yes == y <==> (y * n) % (y + a) == 0)
        }),
{
    let y = yes_pool as int;
    let n = no_pool as int;
    let a = amount as int;
    let d = y + a;
    let k = y * n;
    let r = k / d;
    let m = k % d;
    assert(k >= 0) by (nonlinear_arith)
        requires k == y * n, y > 0, n > 0;
    lemma_fundamental_div_mod(k, d);
    lemma_mod_pos_bound(k, d);
    lemma_cost_bounds(y, n, a);
    assert(r * d == k - m) by (nonlinear_arith)
        requires k == d * r + m;
    let x = r * d;
    assert(x >= 0) by (nonlinear_arith)
        requires r >= 0, d > 0, x == r * d;
    assert(reserve_after(r, d, trade_cost(y, n, a)) == x / n);
    lemma_fundamental_div_mod(x, n);
    lemma_mod_pos_bound(x, n);
    let q = x / n;
    if m == 0 {
        assert(x == n * y) by (nonlinear_arith)
            requires x == k - m, m == 0, k == y * n;
        lemma_div_multiples_vanish(y, n);
    } else {
        assert(q < y) by (nonlinear_arith)
            requires x == n * q + x % n, 0 <= x % n, x < n * y, n > 0, x == k - m, m > 0, k == y * n;
    }
}

} // verus!
