use trendxbet::events::MatchStatusUpdated;
use trendxbet::instructions::admin_instructions::{
    emergency_withdraw, pause_platform, unpause_platform, update_platform_config,
    withdraw_platform_fees,
};
use trendxbet::instructions::bet_instructions::{cancel_bet, claim_winnings, place_bet, settle_bet};
use trendxbet::instructions::initialize::handler;
use trendxbet::instructions::match_instructions::{
    close_match_betting, create_match, update_match_status,
};
use trendxbet::instructions::oracle_instructions::{
    register_oracle, update_match_result, validate_oracle_update,
};
use trendxbet::instructions::user_instructions::{
    create_user_profile, deposit_funds, update_user_profile, withdraw_funds,
};
use trendxbet::{
    Address, BetStatus, GlobalState, MatchState, MatchStatus, OracleState, TreasuryState,
    TrendXBetError, UserState,
};

const NOW: i64 = 1_700_000_000;
const START: i64 = NOW + 600;
const END: i64 = START + 7200;

fn admin() -> Address {
    Address::new(1, 1)
}

fn alice() -> Address {
    Address::new(2, 2)
}

fn bob() -> Address {
    Address::new(3, 3)
}

fn match_key() -> Address {
    Address::new(9, 9)
}

fn platform() -> (GlobalState, TreasuryState) {
    let (g, t, _) = handler(admin(), NOW).unwrap();
    (g, t)
}

fn funded_user(who: Address, name: &str, treasury: &mut TreasuryState, amount: u64) -> UserState {
    let (mut u, _) = create_user_profile(who, name.to_string(), NOW).unwrap();
    deposit_funds(&mut u, treasury, who, amount, NOW).unwrap();
    u
}

fn scheduled_match(g: &GlobalState) -> MatchState {
    let (m, _) = create_match(
        g,
        admin(),
        match_key(),
        "Lions".to_string(),
        "Tigers".to_string(),
        START,
        END,
        "Final".to_string(),
        NOW,
    )
    .unwrap();
    m
}

#[test]
fn platform_defaults() {
    let (g, t) = platform();
    assert_eq!(g.house_edge, 500);
    assert_eq!(g.min_bet_amount, 1_000_000);
    assert_eq!(g.max_bet_amount, 100_000_000_000);
    assert!(g.is_operational());
    assert_eq!(t.net_balance(), 0);
    assert_eq!(t.authority, admin());
}

#[test]
fn deposit_and_withdraw_move_balance_and_treasury_together() {
    let (_, mut t) = platform();
    let mut u = funded_user(alice(), "alice", &mut t, 5_000_000);
    assert_eq!(u.balance, 5_000_000);
    assert_eq!(t.net_balance(), 5_000_000);
    let ev = withdraw_funds(&mut u, &mut t, alice(), 2_000_000, NOW).unwrap();
    assert_eq!(ev.new_balance, 3_000_000);
    assert_eq!(u.balance, 3_000_000);
    assert_eq!(t.net_balance(), 3_000_000);
    assert_eq!(t.total_deposits, 5_000_000);
    assert_eq!(t.total_withdrawals, 2_000_000);
}

#[test]
fn deposit_and_withdraw_errors() {
    let (_, mut t) = platform();
    let mut u = funded_user(alice(), "alice", &mut t, 1000);
    let before_u = u.clone();
    let before_t = t;
    assert_eq!(deposit_funds(&mut u, &mut t, bob(), 10, NOW).err(), Some(TrendXBetError::Unauthorized));
    assert_eq!(deposit_funds(&mut u, &mut t, alice(), 0, NOW).err(), Some(TrendXBetError::BetAmountTooLow));
    assert_eq!(
        deposit_funds(&mut u, &mut t, alice(), u64::MAX, NOW).err(),
        Some(TrendXBetError::MathematicalOverflow)
    );
    assert_eq!(
        withdraw_funds(&mut u, &mut t, alice(), 1001, NOW).err(),
        Some(TrendXBetError::InsufficientBalance)
    );
    t.pending_payouts = 600;
    assert_eq!(
        withdraw_funds(&mut u, &mut t, alice(), 500, NOW).err(),
        Some(TrendXBetError::TreasuryInsufficientFunds)
    );
    t.pending_payouts = 0;
    assert_eq!(u.balance, before_u.balance);
    assert_eq!(t, before_t);
}

#[test]
fn profile_update() {
    let (mut u, ev) = create_user_profile(alice(), "alice".to_string(), NOW).unwrap();
    assert_eq!(ev.username, "alice");
    assert_eq!(
        create_user_profile(alice(), "no spaces".to_string(), NOW).err(),
        Some(TrendXBetError::InvalidAccount)
    );
    assert_eq!(
        update_user_profile(&mut u, bob(), Some("bob".to_string()), NOW).err(),
        Some(TrendXBetError::Unauthorized)
    );
    assert_eq!(
        update_user_profile(&mut u, alice(), Some("x".repeat(40)), NOW).err(),
        Some(TrendXBetError::UsernameTooLong)
    );
    assert_eq!(u.username, "alice");
    update_user_profile(&mut u, alice(), Some("alice_2".to_string()), NOW).unwrap();
    assert_eq!(u.username, "alice_2");
    update_user_profile(&mut u, alice(), None, NOW).unwrap();
    assert_eq!(u.username, "alice_2");
}

#[test]
fn match_creation_rules() {
    let (mut g, _) = platform();
    let m = scheduled_match(&g);
    assert_eq!(m.status, MatchStatus::Scheduled);
    assert_eq!(m.total_pool, 0);
    let same = create_match(
        &g,
        admin(),
        match_key(),
        "Lions".to_string(),
        "Lions".to_string(),
        START,
        END,
        String::new(),
        NOW,
    );
    assert_eq!(same.err(), Some(TrendXBetError::InvalidTeam));
    let stranger = create_match(
        &g,
        alice(),
        match_key(),
        "A".to_string(),
        "B".to_string(),
        START,
        END,
        String::new(),
        NOW,
    );
    assert_eq!(stranger.err(), Some(TrendXBetError::Unauthorized));
    let past = create_match(
        &g,
        admin(),
        match_key(),
        "A".to_string(),
        "B".to_string(),
        NOW,
        END,
        String::new(),
        NOW,
    );
    assert_eq!(past.err(), Some(TrendXBetError::StartTimeInPast));
    pause_platform(&mut g, admin(), NOW).unwrap();
    let paused = create_match(
        &g,
        admin(),
        match_key(),
        "A".to_string(),
        "B".to_string(),
        START,
        END,
        String::new(),
        NOW,
    );
    assert_eq!(paused.err(), Some(TrendXBetError::PlatformPaused));
}

#[test]
fn match_status_machine() {
    let (g, _) = platform();
    let mut m = scheduled_match(&g);
    assert_eq!(
        update_match_status(&mut m, &g, admin(), MatchStatus::Live, START - 1).err(),
        Some(TrendXBetError::MatchNotStarted)
    );
    assert_eq!(
        update_match_status(&mut m, &g, admin(), MatchStatus::Ended, START).err(),
        Some(TrendXBetError::InvalidMatchStatus)
    );
    assert_eq!(
        update_match_status(&mut m, &g, alice(), MatchStatus::Live, START).err(),
        Some(TrendXBetError::Unauthorized)
    );
    let ev = update_match_status(&mut m, &g, admin(), MatchStatus::Live, START).unwrap();
    assert_eq!(
        ev,
        MatchStatusUpdated {
            match_id: match_key(),
            old_status: MatchStatus::Scheduled,
            new_status: MatchStatus::Live,
            timestamp: START,
        }
    );
    assert!(m.is_betting_closed);
    assert_eq!(
        update_match_status(&mut m, &g, admin(), MatchStatus::Ended, END - 1).err(),
        Some(TrendXBetError::MatchNotStarted)
    );
    update_match_status(&mut m, &g, admin(), MatchStatus::Ended, END).unwrap();
    assert_eq!(
        update_match_status(&mut m, &g, admin(), MatchStatus::Settled, END).err(),
        Some(TrendXBetError::OracleResultExists)
    );
    m.set_result(0, "2-1".to_string(), END + 10);
    update_match_status(&mut m, &g, admin(), MatchStatus::Settled, END + 20).unwrap();
    assert_eq!(
        update_match_status(&mut m, &g, admin(), MatchStatus::Cancelled, END + 30).err(),
        Some(TrendXBetError::InvalidMatchStatus)
    );
    assert_eq!(m.status, MatchStatus::Settled);
}

#[test]
fn cancel_from_any_open_status() {
    let (g, _) = platform();
    let mut m = scheduled_match(&g);
    update_match_status(&mut m, &g, admin(), MatchStatus::Cancelled, NOW).unwrap();
    assert_eq!(m.status, MatchStatus::Cancelled);
    assert_eq!(
        update_match_status(&mut m, &g, admin(), MatchStatus::Cancelled, NOW).err(),
        Some(TrendXBetError::InvalidMatchStatus)
    );
}

#[test]
fn close_betting_only_when_scheduled() {
    let (g, _) = platform();
    let mut m = scheduled_match(&g);
    let ev = close_match_betting(&mut m, &g, admin(), NOW).unwrap();
    assert_eq!(ev.total_pool, 0);
    assert!(m.is_betting_closed);
    assert!(!m.is_betting_allowed(START));
    update_match_status(&mut m, &g, admin(), MatchStatus::Live, START).unwrap();
    assert_eq!(
        close_match_betting(&mut m, &g, admin(), START).err(),
        Some(TrendXBetError::InvalidMatchStatus)
    );
}

/// A match that ended with both sides staked: alice 3 units on team 0, bob
/// 2 units on team 1.
struct Scene {
    g: GlobalState,
    t: TreasuryState,
    m: MatchState,
    alice: UserState,
    bob: UserState,
    alice_bet: trendxbet::BetState,
    bob_bet: trendxbet::BetState,
}

const UNIT: u64 = 1_000_000;

fn staked_scene() -> Scene {
    let (g, mut t) = platform();
    let mut m = scheduled_match(&g);
    let mut a = funded_user(alice(), "alice", &mut t, 10 * UNIT);
    let mut b = funded_user(bob(), "bob", &mut t, 10 * UNIT);
    let (alice_bet, _) = place_bet(&mut a, &mut m, &g, &mut t, alice(), 3 * UNIT, 0, 0, START).unwrap();
    let (bob_bet, _) = place_bet(&mut b, &mut m, &g, &mut t, bob(), 2 * UNIT, 1, 0, START).unwrap();
    Scene { g, t, m, alice: a, bob: b, alice_bet, bob_bet }
}

#[test]
fn placement_updates_every_entity() {
    let s = staked_scene();
    assert_eq!(s.alice.balance, 7 * UNIT);
    assert_eq!(s.alice.total_bets_placed, 1);
    assert_eq!(s.alice.total_volume, 3 * UNIT);
    assert_eq!(s.m.total_pool, 5 * UNIT);
    assert_eq!(s.m.team1_pool, 3 * UNIT);
    assert_eq!(s.m.team2_pool, 2 * UNIT);
    assert_eq!(s.m.total_bets, 2);
    // fees at 5% of each stake
    assert_eq!(s.t.platform_fees, 250_000);
    // placing moves no currency
    assert_eq!(s.t.net_balance(), 20 * UNIT as i128);
    assert_eq!(s.alice_bet.status, BetStatus::Active);
    assert_eq!(s.alice_bet.odds_at_time, 10_000);
    // first stake into an empty pool: 3 * 0.95 at 1:1 on top of the stake
    assert_eq!(s.alice_bet.potential_payout, 3 * UNIT + 2_850_000);
    // bob faced 3 units against none on his side
    assert_eq!(s.bob_bet.odds_at_time, 1_000_000);
    assert_eq!(s.m.get_team_odds(0), Ok(6_666));
    assert_eq!(s.m.get_team_odds(1), Ok(15_000));
}

#[test]
fn placement_errors_change_nothing() {
    let s = staked_scene();
    let (mut a, mut m, mut t) = (s.alice.clone(), s.m.clone(), s.t);
    let g = s.g;
    let mut try_bet = |who: Address, amount: u64, team: u8, odds: u64, now: i64| {
        place_bet(&mut a, &mut m, &g, &mut t, who, amount, team, odds, now).err()
    };
    assert_eq!(try_bet(bob(), UNIT, 0, 0, START), Some(TrendXBetError::Unauthorized));
    assert_eq!(try_bet(alice(), UNIT - 1, 0, 0, START), Some(TrendXBetError::BetAmountTooLow));
    assert_eq!(try_bet(alice(), 100_000_000_001, 0, 0, START), Some(TrendXBetError::BetAmountTooHigh));
    assert_eq!(try_bet(alice(), UNIT, 2, 0, START), Some(TrendXBetError::InvalidTeam));
    assert_eq!(try_bet(alice(), UNIT, 0, 0, START - 1), Some(TrendXBetError::BettingClosed));
    assert_eq!(try_bet(alice(), UNIT, 0, 0, END + 1), Some(TrendXBetError::BettingClosed));
    assert_eq!(try_bet(alice(), 8 * UNIT, 0, 0, START), Some(TrendXBetError::InsufficientBalance));
    assert_eq!(try_bet(alice(), UNIT, 0, 6_667, START), Some(TrendXBetError::OracleDeviationTooHigh));
    assert_eq!(a.balance, s.alice.balance);
    assert_eq!(m.total_pool, s.m.total_pool);
    assert_eq!(t, s.t);
    let mut paused = g;
    pause_platform(&mut paused, admin(), NOW).unwrap();
    assert_eq!(
        place_bet(&mut a, &mut m, &paused, &mut t, alice(), UNIT, 0, 0, START).err(),
        Some(TrendXBetError::PlatformPaused)
    );
}

#[test]
fn cancellation_refunds_once_before_start() {
    let (g, mut t) = platform();
    let mut m = scheduled_match(&g);
    // Betting is open from the start time; a match whose start is later
    // than this bet lets it be cancelled.
    m.start_time = START + 100;
    let mut a = funded_user(alice(), "alice", &mut t, 10 * UNIT);
    let (mut bet, _) = place_bet(&mut a, &mut m, &g, &mut t, alice(), 4 * UNIT, 1, 0, START + 100).unwrap();
    m.start_time = START + 200;
    assert_eq!(
        cancel_bet(&mut bet, &mut a, &mut m, bob(), START + 150).err(),
        Some(TrendXBetError::Unauthorized)
    );
    let ev = cancel_bet(&mut bet, &mut a, &mut m, alice(), START + 150).unwrap();
    assert_eq!(ev.refund_amount, 4 * UNIT);
    assert_eq!(a.balance, 10 * UNIT);
    assert_eq!(m.total_pool, 0);
    assert_eq!(m.team2_pool, 0);
    assert_eq!(m.total_bets, 0);
    assert_eq!(bet.payout_amount, Some(4 * UNIT));
    assert_eq!(bet.status, BetStatus::Claimed);
    // the refund is not claimable a second time
    assert_eq!(
        claim_winnings(&mut bet, &mut a, &mut t, alice(), START + 160).err(),
        Some(TrendXBetError::BetNotFound)
    );
    assert_eq!(
        cancel_bet(&mut bet, &mut a, &mut m, alice(), START + 160).err(),
        Some(TrendXBetError::CannotCancelBet)
    );
    assert_eq!(a.balance, 10 * UNIT);
}

#[test]
fn no_cancellation_once_started() {
    let mut s = staked_scene();
    // At the start time itself, whatever the status of the match.
    assert_eq!(
        cancel_bet(&mut s.alice_bet, &mut s.alice, &mut s.m, alice(), START).err(),
        Some(TrendXBetError::CannotCancelBet)
    );
    update_match_status(&mut s.m, &s.g, admin(), MatchStatus::Cancelled, START + 1).unwrap();
    assert_eq!(
        cancel_bet(&mut s.alice_bet, &mut s.alice, &mut s.m, alice(), START + 1).err(),
        Some(TrendXBetError::CannotCancelBet)
    );
    assert_eq!(s.alice.balance, 7 * UNIT);
    assert_eq!(s.alice_bet.status, BetStatus::Active);
}

fn ended_and_settled(s: &mut Scene, winner: u8) -> OracleState {
    update_match_status(&mut s.m, &s.g, admin(), MatchStatus::Live, START).unwrap();
    update_match_status(&mut s.m, &s.g, admin(), MatchStatus::Ended, END).unwrap();
    let reporter = Address::new(7, 7);
    let (mut o, _) = register_oracle(&s.g, admin(), match_key(), reporter, END).unwrap();
    update_match_result(&mut o, &mut s.m, &s.g, reporter, winner, "3-1".to_string(), END + 5).unwrap();
    o.add_confirmation().unwrap();
    validate_oracle_update(&mut o, &mut s.m, &s.g, admin(), END + 10).unwrap();
    o
}

#[test]
fn settle_and_claim_parimutuel() {
    let mut s = staked_scene();
    assert_eq!(
        settle_bet(&mut s.alice_bet, &mut s.alice, &s.m, &s.g, &mut s.t, END).err(),
        Some(TrendXBetError::MatchNotStarted)
    );
    ended_and_settled(&mut s, 0);
    assert!(s.m.is_settled);
    assert_eq!(s.m.status, MatchStatus::Settled);
    assert_eq!(s.m.winning_team, Some(0));
    assert_eq!(s.m.get_winning_pool(), Some(3 * UNIT));
    assert_eq!(s.m.get_losing_pool(), Some(2 * UNIT));

    let ev = settle_bet(&mut s.alice_bet, &mut s.alice, &s.m, &s.g, &mut s.t, END + 20).unwrap();
    // pool 5 units, fee 5%: net 4.75 units, all to the only winning stake
    assert!(ev.won);
    assert_eq!(ev.payout_amount, 4_750_000);
    assert_eq!(s.alice_bet.status, BetStatus::Won);
    assert_eq!(s.alice.total_bets_won, 1);
    assert_eq!(s.alice.total_winnings, 4_750_000);
    assert_eq!(s.t.pending_payouts, 4_750_000);
    assert_eq!(s.alice.balance, 7 * UNIT);

    let lost = settle_bet(&mut s.bob_bet, &mut s.bob, &s.m, &s.g, &mut s.t, END + 20).unwrap();
    assert!(!lost.won);
    assert_eq!(s.bob_bet.status, BetStatus::Lost);
    assert_eq!(s.bob_bet.payout_amount, Some(0));
    assert_eq!(s.bob_bet.get_profit_loss(), -(2 * UNIT as i128));
    assert_eq!(
        settle_bet(&mut s.bob_bet, &mut s.bob, &s.m, &s.g, &mut s.t, END + 30).err(),
        Some(TrendXBetError::BetNotFound)
    );
    assert_eq!(
        claim_winnings(&mut s.bob_bet, &mut s.bob, &mut s.t, bob(), END + 30).err(),
        Some(TrendXBetError::BetNotFound)
    );

    let claimed = claim_winnings(&mut s.alice_bet, &mut s.alice, &mut s.t, alice(), END + 30).unwrap();
    assert_eq!(claimed.payout_amount, 4_750_000);
    assert_eq!(s.alice.balance, 7 * UNIT + 4_750_000);
    assert_eq!(s.t.pending_payouts, 0);
    assert_eq!(s.alice_bet.status, BetStatus::Claimed);
    assert_eq!(s.alice_bet.get_profit_loss(), 1_750_000);
    assert_eq!(s.alice_bet.get_effective_odds(), Some(5_833));
}

#[test]
fn second_claim_fails_and_pays_nothing() {
    let mut s = staked_scene();
    ended_and_settled(&mut s, 1);
    settle_bet(&mut s.bob_bet, &mut s.bob, &s.m, &s.g, &mut s.t, END + 20).unwrap();
    assert_eq!(
        claim_winnings(&mut s.bob_bet, &mut s.bob, &mut s.t, alice(), END + 25).err(),
        Some(TrendXBetError::Unauthorized)
    );
    claim_winnings(&mut s.bob_bet, &mut s.bob, &mut s.t, bob(), END + 30).unwrap();
    let after_first = s.bob.balance;
    assert_eq!(after_first, 8 * UNIT + 4_750_000);
    assert_eq!(
        claim_winnings(&mut s.bob_bet, &mut s.bob, &mut s.t, bob(), END + 40).err(),
        Some(TrendXBetError::BetNotFound)
    );
    assert_eq!(s.bob.balance, after_first);
}

#[test]
fn oracle_threshold_and_readiness() {
    let mut s = staked_scene();
    update_match_status(&mut s.m, &s.g, admin(), MatchStatus::Live, START).unwrap();
    update_match_status(&mut s.m, &s.g, admin(), MatchStatus::Ended, END).unwrap();
    let reporter = Address::new(7, 7);
    let (mut o, _) = register_oracle(&s.g, admin(), match_key(), reporter, END).unwrap();
    assert_eq!(
        register_oracle(&s.g, alice(), match_key(), reporter, END).err(),
        Some(TrendXBetError::Unauthorized)
    );
    assert_eq!(
        update_match_result(&mut o, &mut s.m, &s.g, alice(), 0, "1-0".to_string(), END).err(),
        Some(TrendXBetError::InvalidOracleAuthority)
    );
    assert_eq!(
        update_match_result(&mut o, &mut s.m, &s.g, reporter, 2, "1-0".to_string(), END).err(),
        Some(TrendXBetError::InvalidTeam)
    );
    assert_eq!(
        update_match_result(&mut o, &mut s.m, &s.g, reporter, 0, "1-0".to_string(), END + 3601)
            .err(),
        Some(TrendXBetError::OracleUpdateExpired)
    );
    update_match_result(&mut o, &mut s.m, &s.g, reporter, 0, "1-0".to_string(), END + 100).unwrap();
    assert_eq!(o.confirmations, 1);
    // one confirmation is not enough: the match has no result yet
    assert_eq!(s.m.winning_team, None);
    assert_eq!(
        validate_oracle_update(&mut o, &mut s.m, &s.g, admin(), END + 200).err(),
        Some(TrendXBetError::InsufficientOracleConfirmations)
    );
    assert!(!o.is_ready());
    // a correction keeps the confirmation count
    update_match_result(&mut o, &mut s.m, &s.g, reporter, 1, "1-2".to_string(), END + 300).unwrap();
    assert_eq!(o.confirmations, 1);
    assert_eq!(o.reported_result, Some(1));
    o.add_confirmation().unwrap();
    assert!(o.has_minimum_confirmations());
    assert!(!o.is_ready());
    assert_eq!(o.get_validated_result(), None);
    let (ev, consensus) = validate_oracle_update(&mut o, &mut s.m, &s.g, admin(), END + 400).unwrap();
    assert!(ev.is_final);
    assert_eq!(consensus.unwrap().winning_team, 1);
    assert!(o.is_ready());
    assert_eq!(o.get_validated_result(), Some(1));
    assert_eq!(o.get_validated_score(), Some("1-2".to_string()));
    assert_eq!(s.m.status, MatchStatus::Settled);
    assert_eq!(s.m.winning_team, Some(1));
    assert_eq!(s.m.final_score, Some("1-2".to_string()));
    // no corrections after validation
    assert_eq!(
        o.update_result(0, "0-0".to_string(), END + 500),
        Err(TrendXBetError::OracleResultExists)
    );
}

#[test]
fn oracle_report_needs_ended_match() {
    let mut s = staked_scene();
    let reporter = Address::new(7, 7);
    let (mut o, _) = register_oracle(&s.g, admin(), match_key(), reporter, END).unwrap();
    assert_eq!(
        update_match_result(&mut o, &mut s.m, &s.g, reporter, 0, "1-0".to_string(), END).err(),
        Some(TrendXBetError::InvalidMatchStatus)
    );
    let (mut other, _) = register_oracle(&s.g, admin(), Address::new(4, 4), reporter, END).unwrap();
    assert_eq!(
        validate_oracle_update(&mut other, &mut s.m, &s.g, admin(), END).err(),
        Some(TrendXBetError::InvalidAccount)
    );
}

#[test]
fn config_updates() {
    let (mut g, _) = platform();
    assert_eq!(
        update_platform_config(&mut g, admin(), Some(5001), None, None, NOW).err(),
        Some(TrendXBetError::InvalidHouseEdge)
    );
    assert_eq!(
        update_platform_config(&mut g, alice(), Some(100), None, None, NOW).err(),
        Some(TrendXBetError::Unauthorized)
    );
    assert_eq!(
        update_platform_config(&mut g, admin(), None, Some(0), None, NOW).err(),
        Some(TrendXBetError::BetAmountTooLow)
    );
    assert_eq!(
        update_platform_config(&mut g, admin(), None, Some(10), Some(10), NOW).err(),
        Some(TrendXBetError::InvalidTimeConfiguration)
    );
    // a new minimum is checked against the maximum already in force
    assert_eq!(
        update_platform_config(&mut g, admin(), None, Some(200_000_000_000), None, NOW).err(),
        Some(TrendXBetError::InvalidTimeConfiguration)
    );
    assert_eq!(g.house_edge, 500);
    let ev = update_platform_config(&mut g, admin(), Some(5000), Some(10), Some(20), NOW).unwrap();
    assert_eq!(ev.old_house_edge, Some(500));
    assert_eq!(ev.new_house_edge, Some(5000));
    assert_eq!(ev.old_min_bet, Some(1_000_000));
    assert_eq!(ev.old_max_bet, Some(100_000_000_000));
    assert_eq!((g.house_edge, g.min_bet_amount, g.max_bet_amount), (5000, 10, 20));
}

#[test]
fn pause_and_unpause() {
    let (mut g, _) = platform();
    assert_eq!(unpause_platform(&mut g, admin(), NOW).err(), Some(TrendXBetError::AlreadyInitialized));
    assert_eq!(pause_platform(&mut g, alice(), NOW).err(), Some(TrendXBetError::Unauthorized));
    pause_platform(&mut g, admin(), NOW).unwrap();
    assert!(!g.is_operational());
    assert_eq!(pause_platform(&mut g, admin(), NOW).err(), Some(TrendXBetError::PlatformPaused));
    unpause_platform(&mut g, admin(), NOW).unwrap();
    assert!(g.is_operational());
}

#[test]
fn fee_and_emergency_withdrawals() {
    let s = staked_scene();
    let mut t = s.t;
    let g = s.g;
    assert_eq!(
        withdraw_platform_fees(&mut t, &g, alice(), 1, NOW).err(),
        Some(TrendXBetError::Unauthorized)
    );
    assert_eq!(
        withdraw_platform_fees(&mut t, &g, admin(), 0, NOW).err(),
        Some(TrendXBetError::BetAmountTooLow)
    );
    assert_eq!(
        withdraw_platform_fees(&mut t, &g, admin(), 250_001, NOW).err(),
        Some(TrendXBetError::TreasuryInsufficientFunds)
    );
    let ev = withdraw_platform_fees(&mut t, &g, admin(), 100_000, NOW + 50).unwrap();
    assert_eq!(ev.remaining_fees, 150_000);
    assert_eq!(t.last_fee_collection, NOW + 50);
    assert_eq!(t.net_balance(), 20 * UNIT as i128 - 100_000);
    // funds owed to winners cannot leave
    t.pending_payouts = t.total_deposits - t.total_withdrawals;
    assert_eq!(
        emergency_withdraw(&mut t, &g, admin(), 1, NOW).err(),
        Some(TrendXBetError::TreasuryInsufficientFunds)
    );
    assert_eq!(
        withdraw_platform_fees(&mut t, &g, admin(), 1, NOW).err(),
        Some(TrendXBetError::TreasuryInsufficientFunds)
    );
    t.pending_payouts = 0;
    emergency_withdraw(&mut t, &g, admin(), 1_000, NOW).unwrap();
    assert_eq!(t.net_balance(), 20 * UNIT as i128 - 101_000);
}

#[test]
fn placement_fails_when_odds_overflow() {
    let (g, mut t) = platform();
    let mut m = scheduled_match(&g);
    m.team1_pool = 1;
    m.team2_pool = u64::MAX - 2;
    m.total_pool = u64::MAX - 1;
    let mut a = funded_user(alice(), "alice", &mut t, 10 * UNIT);
    let before_t = t;
    assert_eq!(
        place_bet(&mut a, &mut m, &g, &mut t, alice(), UNIT, 0, 0, START).err(),
        Some(TrendXBetError::MathematicalOverflow)
    );
    assert_eq!(a.balance, 10 * UNIT);
    assert_eq!(m.total_pool, u64::MAX - 1);
    assert_eq!(t, before_t);
}

#[test]
fn settlement_pays_parimutuel_share() {
    let (g, mut t) = platform();
    let mut m = scheduled_match(&g);
    // pool 1000, of which 400 on the winning side; house edge 5%
    m.team1_pool = 400;
    m.team2_pool = 600;
    m.total_pool = 1000;
    m.winning_team = Some(0);
    m.is_settled = true;
    m.status = MatchStatus::Settled;
    let mut u = funded_user(alice(), "alice", &mut t, 10 * UNIT);
    let mut bet = trendxbet::BetState::initialize(alice(), match_key(), 100, 0, 15_000, 242, START);
    let ev = settle_bet(&mut bet, &mut u, &m, &g, &mut t, END).unwrap();
    assert!(ev.won);
    assert_eq!(ev.payout_amount, 237);
    assert_eq!(bet.status, BetStatus::Won);
    assert_eq!(bet.payout_amount, Some(237));
    assert_eq!(t.pending_payouts, 237);
    assert_eq!(u.total_winnings, 237);
}
