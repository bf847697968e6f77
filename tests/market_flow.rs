use oraculo::config::initialize_config;
use oraculo::error::ErrorCode;
use oraculo::market::{create_market, place_bet};
use oraculo::state::{Config, Market, MarketCategory, MarketStatus};
use oraculo::utils::calculate_bonding_curve;

const NOW: i64 = 1_700_000_000;
const END: i64 = NOW + 86_400;

fn config(min_liquidity: u64) -> Config {
    initialize_config([1; 32], [2; 32], [3; 32], 255, min_liquidity, 500, 50, 51).unwrap().0
}

fn market_with_pools(yes_pool: u64, no_pool: u64) -> Market {
    let (mut m, _) = create_market(
        &config(0),
        [9; 32],
        [4; 32],
        [5; 32],
        [6; 32],
        254,
        String::from("Will it rain?"),
        String::from("Rain at the airport"),
        1,
        END,
        String::from("Weather service"),
        yes_pool + no_pool,
        NOW,
    )
    .unwrap();
    m.yes_pool = yes_pool;
    m.no_pool = no_pool;
    m
}

#[test]
fn initialize_config_rejects_supermajority_out_of_range() {
    assert_eq!(initialize_config([1; 32], [2; 32], [3; 32], 0, 1, 1, 1, 50).err(), Some(ErrorCode::InvalidSupermajority));
    assert_eq!(initialize_config([1; 32], [2; 32], [3; 32], 0, 1, 1, 1, 101).err(), Some(ErrorCode::InvalidSupermajority));
    let (c, ev) = initialize_config([1; 32], [2; 32], [3; 32], 7, 10, 20, 30, 100).unwrap();
    assert_eq!(c.supermajority_percent, 100);
    assert_eq!(c.total_markets, 0);
    assert_eq!(ev.quorum, 30);
    assert_eq!(ev.proposal_stake, 20);
}

#[test]
fn create_market_splits_liquidity_evenly() {
    let (m, ev) = create_market(
        &config(1_000),
        [9; 32],
        [4; 32],
        [5; 32],
        [6; 32],
        254,
        String::from("Q"),
        String::from("D"),
        4,
        END,
        String::from("S"),
        10_000_001,
        NOW,
    )
    .unwrap();
    assert_eq!(m.yes_pool, 5_000_000);
    assert_eq!(m.no_pool, 5_000_000);
    assert_eq!(m.total_liquidity, 10_000_001);
    assert_eq!(m.status, MarketStatus::Active);
    assert_eq!(m.category, MarketCategory::Technology);
    assert_eq!(m.resolution_time, END + 604_800);
    assert_eq!(m.outcome, None);
    assert_eq!(ev.question, "Q");
    assert_eq!(ev.initial_liquidity, 10_000_001);
}

fn try_create(question: &str, description: &str, source: &str, end_time: i64, liquidity: u64, category: u8) -> Result<Market, ErrorCode> {
    create_market(
        &config(1_000),
        [9; 32],
        [4; 32],
        [5; 32],
        [6; 32],
        0,
        String::from(question),
        String::from(description),
        category,
        end_time,
        String::from(source),
        liquidity,
        NOW,
    )
    .map(|(m, _)| m)
}

#[test]
fn create_market_validation_errors() {
    let long201 = "q".repeat(201);
    let long501 = "d".repeat(501);
    assert_eq!(try_create(&long201, "", "", END, 1_000, 0).err(), Some(ErrorCode::QuestionTooLong));
    assert!(try_create(&"q".repeat(200), "", "", END, 1_000, 0).is_ok());
    assert_eq!(try_create("", &long501, "", END, 1_000, 0).err(), Some(ErrorCode::DescriptionTooLong));
    assert_eq!(try_create("", "", &long201, END, 1_000, 0).err(), Some(ErrorCode::SourceTooLong));
    assert_eq!(try_create("", "", "", END, 999, 0).err(), Some(ErrorCode::InsufficientLiquidity));
    assert_eq!(try_create("", "", "", NOW, 1_000, 0).err(), Some(ErrorCode::InvalidEndTime));
    assert_eq!(try_create("", "", "", NOW + 31_536_001, 1_000, 0).err(), Some(ErrorCode::EndTimeTooFar));
    assert!(try_create("", "", "", NOW + 31_536_000, 1_000, 0).is_ok());
}

#[test]
fn create_market_counts_characters_not_bytes() {
    let accented = "é".repeat(200);
    assert!(try_create(&accented, "", "", END, 1_000, 0).is_ok());
}

#[test]
fn create_market_category_codes() {
    assert_eq!(try_create("", "", "", END, 1_000, 0).unwrap().category, MarketCategory::Crypto);
    assert_eq!(try_create("", "", "", END, 1_000, 2).unwrap().category, MarketCategory::Politics);
    assert_eq!(try_create("", "", "", END, 1_000, 3).unwrap().category, MarketCategory::Entertainment);
    assert_eq!(try_create("", "", "", END, 1_000, 200).unwrap().category, MarketCategory::Other);
}

#[test]
fn place_bet_below_minimum_fails() {
    let mut m = market_with_pools(100_000_000, 100_000_000);
    assert_eq!(place_bet(&mut m, [9; 32], [7; 32], 999_999, true, NOW).err(), Some(ErrorCode::BetTooSmall));
    assert_eq!(m.yes_pool, 100_000_000);
    assert_eq!(m.volume, 0);
}

#[test]
fn place_bet_minimum_costs_less_than_amount() {
    let mut m = market_with_pools(100_000_000, 100_000_000);
    let ev = place_bet(&mut m, [9; 32], [7; 32], 1_000_000, true, NOW).unwrap();
    assert!(ev.cost > 0 && ev.cost < 1_000_000);
    assert_eq!(ev.cost, 990_100);
    assert_eq!(ev.amount, 1_000_000);
    assert_eq!(m.yes_pool, 101_000_000);
    assert_eq!(m.no_pool, 100_000_000);
    assert_eq!(m.total_liquidity, 200_000_000 + 990_100);
    assert_eq!(m.volume, 990_100);
    assert_eq!((ev.yes_pool, ev.no_pool), (101_000_000, 100_000_000));
}

#[test]
fn place_bet_on_no_moves_no_pool() {
    let mut m = market_with_pools(100_000_000, 100_000_000);
    let ev = place_bet(&mut m, [9; 32], [7; 32], 10_000_000, false, NOW).unwrap();
    assert_eq!(ev.cost, 9_090_910);
    assert!(!ev.bet_on_yes);
    assert_eq!(m.yes_pool, 100_000_000);
    assert_eq!(m.no_pool, 110_000_000);
}

#[test]
fn place_bet_after_end_fails() {
    let mut m = market_with_pools(100_000_000, 100_000_000);
    assert_eq!(place_bet(&mut m, [9; 32], [7; 32], 1_000_000, true, END).err(), Some(ErrorCode::MarketEnded));
}

#[test]
fn place_bet_on_inactive_market_fails() {
    let mut m = market_with_pools(100_000_000, 100_000_000);
    m.status = MarketStatus::Cancelled;
    assert_eq!(place_bet(&mut m, [9; 32], [7; 32], 1_000_000, true, NOW).err(), Some(ErrorCode::MarketNotActive));
}

#[test]
fn place_bet_reserve_overflow_fails_without_change() {
    let mut m = market_with_pools(100_000_000, 100_000_000);
    m.yes_pool = u64::MAX - 10;
    assert_eq!(place_bet(&mut m, [9; 32], [7; 32], 1_000_000, true, NOW).err(), Some(ErrorCode::MathOverflow));
    assert_eq!(m.yes_pool, u64::MAX - 10);
    assert_eq!(m.total_liquidity, 200_000_000);
}

#[test]
fn bet_never_shrinks_pool_product() {
    let mut m = market_with_pools(3_000_000, 7_000_000);
    let before = m.yes_pool as u128 * m.no_pool as u128;
    place_bet(&mut m, [9; 32], [7; 32], 2_000_000, true, NOW).unwrap();
    let after = m.yes_pool as u128 * m.no_pool as u128;
    assert!(after >= before);
}

#[test]
fn bet_moves_price_toward_bought_side() {
    let mut m = market_with_pools(50_000_000, 50_000_000);
    let (y0, n0) = (m.yes_pool as u128, m.no_pool as u128);
    let ev = place_bet(&mut m, [9; 32], [7; 32], 5_000_000, true, NOW).unwrap();
    let (y1, n1) = (m.yes_pool as u128, m.no_pool as u128);
    assert!(y1 > y0);
    // implied YES share y / (y + n) rose
    assert!(y0 * (y1 + n1) < y1 * (y0 + n0));
    // buying NO for the returned cost does not restore the starting reserves
    place_bet(&mut m, [9; 32], [7; 32], ev.cost, false, NOW).unwrap();
    assert_ne!((m.yes_pool as u128, m.no_pool as u128), (y0, n0));
}

#[test]
fn create_market_needs_a_unit_in_each_reserve() {
    let lenient = initialize_config([1; 32], [2; 32], [3; 32], 0, 0, 0, 0, 51).unwrap().0;
    for liquidity in [0u64, 1] {
        let r = create_market(
            &lenient,
            [9; 32],
            [4; 32],
            [5; 32],
            [6; 32],
            0,
            String::new(),
            String::new(),
            0,
            END,
            String::new(),
            liquidity,
            NOW,
        );
        assert_eq!(r.err(), Some(ErrorCode::InsufficientLiquidity));
    }
    let (m, _) = create_market(
        &lenient,
        [9; 32],
        [4; 32],
        [5; 32],
        [6; 32],
        0,
        String::new(),
        String::new(),
        0,
        END,
        String::new(),
        2,
        NOW,
    )
    .unwrap();
    assert_eq!((m.yes_pool, m.no_pool), (1, 1));
}

#[test]
fn initialize_config_accepts_range_ends() {
    assert!(initialize_config([1; 32], [2; 32], [3; 32], 0, 1, 1, 1, 51).is_ok());
    assert!(initialize_config([1; 32], [2; 32], [3; 32], 0, 1, 1, 1, 100).is_ok());
}

#[test]
fn curve_round_trip_falls_short_unless_division_is_exact() {
    // YES buy of 10 on 100/100: recomputed NO reserve 90, cost 10.
    let (cost, _) = calculate_bonding_curve(100, 100, 10, true).unwrap();
    assert_eq!(cost, 10);
    // from (110, 90), a NO buy of 10 brings NO back to 100 and YES to 9900 / 100 = 99
    let (back_cost, _) = calculate_bonding_curve(110, 90, cost, false).unwrap();
    assert_eq!(110 - back_cost, 99);
    // 1 * 2 is divisible by 1 + 1: from (2, 1) a NO buy of 1 brings YES back to 1
    let (cost, _) = calculate_bonding_curve(1, 2, 1, true).unwrap();
    assert_eq!(cost, 1);
    let (back_cost, _) = calculate_bonding_curve(2, 1, cost, false).unwrap();
    assert_eq!(2 - back_cost, 1);
}
