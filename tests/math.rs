use trendxbet::{MathUtils, TrendXBetError};

#[test]
fn odds_empty_pool_is_even() {
    assert_eq!(MathUtils::calculate_odds(500, 0), Ok(10_000));
    assert_eq!(MathUtils::calculate_odds(0, 0), Ok(10_000));
}

#[test]
fn odds_side_without_stake_is_very_high() {
    assert_eq!(MathUtils::calculate_odds(0, 500), Ok(1_000_000));
    assert_eq!(MathUtils::calculate_odds(0, 1000), Ok(1_000_000));
}

#[test]
fn odds_from_opposing_pool() {
    // opposing 400 against 100
    assert_eq!(MathUtils::calculate_odds(100, 500), Ok(40_000));
    // no opposing stake at all
    assert_eq!(MathUtils::calculate_odds(500, 500), Ok(0));
    assert_eq!(MathUtils::calculate_odds(250, 500), Ok(10_000));
}

#[test]
fn odds_arithmetic_failures() {
    assert_eq!(MathUtils::calculate_odds(600, 500), Err(TrendXBetError::MathematicalOverflow));
    assert_eq!(MathUtils::calculate_odds(1, u64::MAX), Err(TrendXBetError::MathematicalOverflow));
}

#[test]
fn platform_fee_in_basis_points() {
    assert_eq!(MathUtils::calculate_platform_fee(1000, 500), Ok(50));
    assert_eq!(MathUtils::calculate_platform_fee(999, 500), Ok(49));
    assert_eq!(MathUtils::calculate_platform_fee(1000, 0), Ok(0));
    assert_eq!(
        MathUtils::calculate_platform_fee(u64::MAX, 2),
        Err(TrendXBetError::MathematicalOverflow)
    );
}

#[test]
fn parimutuel_payout_example() {
    // pool 1000, winning side 400, edge 5%: fee 50, net 950, 100 * 950 / 400
    assert_eq!(MathUtils::calculate_parimutuel_payout(100, 400, 1000, 500), Ok(237));
    assert_eq!(MathUtils::calculate_parimutuel_payout(400, 400, 1000, 500), Ok(950));
}

#[test]
fn parimutuel_payout_failures() {
    assert_eq!(
        MathUtils::calculate_parimutuel_payout(100, 0, 1000, 500),
        Err(TrendXBetError::DivisionByZero)
    );
    assert_eq!(
        MathUtils::calculate_parimutuel_payout(u64::MAX, 1, 1000, 0),
        Err(TrendXBetError::MathematicalOverflow)
    );
    assert_eq!(
        MathUtils::calculate_parimutuel_payout(100, 400, 1000, 20_000),
        Err(TrendXBetError::MathematicalOverflow)
    );
}

#[test]
fn placement_quote() {
    // fee 50, effective 950, winnings 950 * 40000 / 10000 = 3800
    assert_eq!(MathUtils::calculate_payout(1000, 40_000, 500), Ok(4800));
    // even odds, no edge: stake doubled
    assert_eq!(MathUtils::calculate_payout(1000, 10_000, 0), Ok(2000));
    assert_eq!(
        MathUtils::calculate_payout(1000, 10_000, 20_000),
        Err(TrendXBetError::MathematicalOverflow)
    );
    assert_eq!(
        MathUtils::calculate_payout(u64::MAX, 10_000, 0),
        Err(TrendXBetError::MathematicalOverflow)
    );
}

#[test]
fn placement_quote_and_settlement_differ() {
    // The quote at placement and the parimutuel settlement follow different
    // models: same stake and pools, different amounts.
    let odds = MathUtils::calculate_odds(400, 1000).unwrap();
    assert_eq!(odds, 15_000);
    let quote = MathUtils::calculate_payout(100, odds, 500).unwrap();
    let settled = MathUtils::calculate_parimutuel_payout(100, 400, 1000, 500).unwrap();
    assert_eq!(quote, 242);
    assert_eq!(settled, 237);
}
