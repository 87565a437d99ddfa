use std::collections::VecDeque;

use polymarket_arbitrage_bot::history::check_dump;
use polymarket_arbitrage_bot::ledger::Booked;
use polymarket_arbitrage_bot::market::{
    FirstLeg, Leg, MarketData, MarketSnapshot, Side, TokenQuote,
};
use polymarket_arbitrage_bot::model::{RoundEvent, SnapshotStep};
use polymarket_arbitrage_bot::trader::{DumpHedgeTrader, OrderAction};
use polymarket_arbitrage_bot::units::{round_to_lot, LOT, ONE};

const CENT: i64 = ONE / 100;
const PERIOD: u64 = 1_700_000_100;

fn trader(simulation: bool) -> DumpHedgeTrader {
    DumpHedgeTrader::new(
        simulation,
        10 * ONE,
        95 * CENT,
        15 * CENT,
        2,
        5,
        20 * CENT,
    )
}

fn market_snapshot(id: &str, period: u64, up: Option<i64>, down: Option<i64>) -> MarketSnapshot {
    MarketSnapshot {
        market_name: "BTC 15m".to_string(),
        btc_market_15m: MarketData {
            condition_id: id.to_string(),
            up_token: Some(TokenQuote { token_id: format!("{}-up", id), ask: up }),
            down_token: Some(TokenQuote { token_id: format!("{}-down", id), ask: down }),
        },
        btc_15m_period_timestamp: period,
        btc_15m_time_remaining: 0,
    }
}

fn snapshot(up_cents: i64, down_cents: i64) -> MarketSnapshot {
    market_snapshot("market", PERIOD, Some(up_cents * CENT), Some(down_cents * CENT))
}

fn history(samples: &[(u64, i64)]) -> VecDeque<(u64, i64)> {
    samples.iter().map(|(t, cents)| (*t, *cents * CENT)).collect()
}

/// Leg 1: ten Up shares at 40 cents, bought 13 seconds into the round.
fn with_first_leg(t: &mut DumpHedgeTrader) {
    assert_eq!(t.process_snapshot(&snapshot(50, 50), PERIOD + 10).step, SnapshotStep::Idle);
    assert_eq!(t.process_snapshot(&snapshot(40, 58), PERIOD + 13).step, SnapshotStep::Buy);
    assert_eq!(
        t.finish_buy(true),
        Ok(Some(Booked::FirstLeg { timestamp: PERIOD + 13 }))
    );
}

#[test]
fn dump_needs_two_samples() {
    assert_eq!(check_dump(&history(&[]), 100, 15 * CENT), None);
    assert_eq!(check_dump(&history(&[(100, 50)]), 100, 15 * CENT), None);
}

#[test]
fn dump_at_and_below_the_threshold() {
    assert_eq!(check_dump(&history(&[(97, 20), (100, 17)]), 100, 15 * CENT), Some(true));
    assert_eq!(check_dump(&history(&[(97, 100), (100, 86)]), 100, 15 * CENT), Some(false));
    assert_eq!(check_dump(&history(&[(97, 50), (100, 60)]), 100, 15 * CENT), Some(false));
}

#[test]
fn dump_needs_a_fall_even_with_a_negative_threshold() {
    assert_eq!(check_dump(&history(&[(97, 50), (100, 50)]), 100, -CENT), Some(false));
    assert_eq!(check_dump(&history(&[(97, 50), (100, 49)]), 100, -CENT), Some(true));
}

#[test]
fn dump_span_is_one_to_five_seconds() {
    assert_eq!(check_dump(&history(&[(100, 50), (100, 30)]), 100, 15 * CENT), None);
    assert_eq!(check_dump(&history(&[(99, 50), (100, 30)]), 100, 15 * CENT), Some(true));
    assert_eq!(check_dump(&history(&[(95, 50), (100, 30)]), 100, 15 * CENT), Some(true));
    assert_eq!(check_dump(&history(&[(94, 50), (100, 30)]), 100, 15 * CENT), None);
}

#[test]
fn dump_reference_is_the_latest_old_sample() {
    // The sample of 96 counts, not the higher one of 95; 98 is too recent.
    let h = history(&[(95, 90), (96, 40), (98, 80), (100, 39)]);
    assert_eq!(check_dump(&h, 100, 15 * CENT), Some(false));
    // Of two samples of the same time the first one counts, old and new.
    let h = history(&[(97, 50), (97, 30), (100, 40), (100, 10)]);
    assert_eq!(check_dump(&h, 100, 21 * CENT), Some(false));
    assert_eq!(check_dump(&h, 100, 20 * CENT), Some(true));
}

#[test]
fn dump_reference_falls_back_to_the_oldest_sample() {
    assert_eq!(check_dump(&history(&[(99, 50), (98, 60), (100, 30)]), 100, 15 * CENT), Some(true));
    assert_eq!(check_dump(&history(&[(1, 50), (2, 30)]), 2, 15 * CENT), Some(true));
}

#[test]
fn dump_needs_a_positive_reference_price() {
    assert_eq!(check_dump(&history(&[(97, 0), (100, 30)]), 100, 15 * CENT), None);
    assert_eq!(check_dump(&history(&[(97, -5), (100, -30)]), 100, 15 * CENT), None);
}

#[test]
fn trader_checks_with_its_own_threshold() {
    let t = trader(true);
    assert_eq!(t.check_dump(&history(&[(97, 20), (100, 17)]), 100), Some(true));
    assert_eq!(t.check_dump(&history(&[(97, 100), (100, 86)]), 100), Some(false));
}

#[test]
fn new_round_within_the_window() {
    let mut t = trader(true);
    let r = t.process_snapshot(&snapshot(50, 50), PERIOD + 120);
    assert_eq!(r.round, RoundEvent::Started);
    assert_eq!(r.step, SnapshotStep::Idle);
    let r = t.process_snapshot(&snapshot(50, 50), PERIOD + 121);
    assert_eq!(r.round, RoundEvent::Continuing);
}

#[test]
fn missed_round_is_not_traded() {
    let mut t = trader(true);
    let r = t.process_snapshot(&snapshot(50, 50), PERIOD + 121);
    assert_eq!(r.round, RoundEvent::Missed { minutes_elapsed: 2 });
    let r = t.process_snapshot(&snapshot(20, 50), PERIOD + 124);
    assert_eq!(r.step, SnapshotStep::Idle);
    assert!(t.pending_purchase().is_none());
}

#[test]
fn dump_after_the_window_is_ignored() {
    let mut t = trader(true);
    t.process_snapshot(&snapshot(50, 50), PERIOD + 118);
    let r = t.process_snapshot(&snapshot(20, 50), PERIOD + 121);
    assert_eq!(r.step, SnapshotStep::Idle);
}

#[test]
fn missing_prices_are_skipped() {
    let mut t = trader(true);
    let none = market_snapshot("market", PERIOD, None, Some(50 * CENT));
    assert_eq!(t.process_snapshot(&none, PERIOD + 1).step, SnapshotStep::NoPrices);
    let zero = market_snapshot("market", PERIOD, Some(50 * CENT), Some(0));
    assert_eq!(t.process_snapshot(&zero, PERIOD + 2).step, SnapshotStep::NoPrices);
    let mut one_token = snapshot(50, 50);
    one_token.btc_market_15m.down_token = None;
    assert_eq!(t.process_snapshot(&one_token, PERIOD + 3).step, SnapshotStep::NoPrices);
    // None of them left a sample behind: one more is not enough for a dump.
    assert_eq!(t.process_snapshot(&snapshot(20, 50), PERIOD + 6).step, SnapshotStep::Idle);
}

#[test]
fn up_dump_buys_up() {
    let mut t = trader(true);
    t.process_snapshot(&snapshot(50, 50), PERIOD + 10);
    let r = t.process_snapshot(&snapshot(40, 58), PERIOD + 13);
    assert_eq!(r.step, SnapshotStep::Buy);
    let p = t.pending_purchase().unwrap();
    assert_eq!(p.condition_id, "market");
    assert_eq!(p.period_timestamp, PERIOD);
    assert_eq!(p.side, Side::Up);
    assert_eq!(p.token_id, "market-up");
    assert_eq!(p.shares, 10 * ONE);
    assert_eq!(p.price, 40 * CENT);
    assert_eq!(p.leg, Leg::First { timestamp: PERIOD + 13 });
}

#[test]
fn down_dump_buys_down_and_up_goes_first() {
    let mut t = trader(true);
    t.process_snapshot(&snapshot(50, 50), PERIOD + 10);
    t.process_snapshot(&snapshot(50, 40), PERIOD + 13);
    assert_eq!(t.pending_purchase().unwrap().side, Side::Down);
    assert_eq!(t.pending_purchase().unwrap().price, 40 * CENT);

    let mut t = trader(true);
    t.process_snapshot(&snapshot(50, 50), PERIOD + 10);
    t.process_snapshot(&snapshot(40, 40), PERIOD + 13);
    assert_eq!(t.pending_purchase().unwrap().side, Side::Up);
}

#[test]
fn hedge_at_exactly_the_target() {
    let mut t = trader(true);
    with_first_leg(&mut t);
    let r = t.process_snapshot(&snapshot(40, 56), PERIOD + 20);
    assert_eq!(
        r.step,
        SnapshotStep::WaitingForHedge {
            leg1: FirstLeg { side: Side::Up, entry_price: 40 * CENT, shares: 10 * ONE },
            opposite_ask: 56 * CENT,
            total_price: (96 * CENT) as i128,
            minutes_waited: 0,
            report: true,
        }
    );
    let r = t.process_snapshot(&snapshot(40, 55), PERIOD + 21);
    assert_eq!(r.step, SnapshotStep::Buy);
    let leg1 = FirstLeg { side: Side::Up, entry_price: 40 * CENT, shares: 10 * ONE };
    let p = t.pending_purchase().unwrap();
    assert_eq!(p.side, Side::Down);
    assert_eq!(p.token_id, "market-down");
    assert_eq!(p.shares, 10 * ONE);
    assert_eq!(p.leg, Leg::Hedge { leg1 });
    let square = ONE as i128 * ONE as i128;
    assert_eq!(
        t.finish_buy(true),
        Ok(Some(Booked::Cycle {
            leg1,
            total_cost: square * 19 / 2,
            expected_profit: square / 2,
        }))
    );
    // Ten pairs at 95 cents earn half a dollar.
    assert_eq!(t.get_total_profit(), square / 2);
    assert_eq!(t.get_period_profit(), square / 2);
}

#[test]
fn waiting_is_reported_every_ten_seconds() {
    let mut t = trader(true);
    with_first_leg(&mut t);
    match t.process_snapshot(&snapshot(40, 70), PERIOD + 79).step {
        SnapshotStep::WaitingForHedge { minutes_waited, report, .. } => {
            assert_eq!(minutes_waited, 1);
            assert!(!report);
        }
        other => panic!("{:?}", other),
    }
}

#[test]
fn stop_loss_buys_at_any_price() {
    let mut t = trader(true);
    with_first_leg(&mut t);
    let late = PERIOD + 13 + 300;
    match t.process_snapshot(&snapshot(10, 90), late - 1).step {
        SnapshotStep::WaitingForHedge { minutes_waited, .. } => assert_eq!(minutes_waited, 4),
        other => panic!("{:?}", other),
    }
    assert_eq!(t.process_snapshot(&snapshot(10, 90), late).step, SnapshotStep::Buy);
    let leg1 = FirstLeg { side: Side::Up, entry_price: 40 * CENT, shares: 10 * ONE };
    assert_eq!(t.pending_purchase().unwrap().leg, Leg::StopLoss { leg1 });
    let square = ONE as i128 * ONE as i128;
    assert_eq!(
        t.finish_buy(true),
        Ok(Some(Booked::Cycle { leg1, total_cost: 13 * square, expected_profit: -3 * square }))
    );
    assert_eq!(t.get_total_profit(), -3 * square);
}

#[test]
fn stop_loss_goes_before_the_hedge() {
    let mut t = trader(true);
    with_first_leg(&mut t);
    t.process_snapshot(&snapshot(40, 30), PERIOD + 13 + 300);
    match t.pending_purchase().unwrap().leg {
        Leg::StopLoss { .. } => {}
        other => panic!("{:?}", other),
    }
}

#[test]
fn complete_cycle_is_left_alone() {
    let mut t = trader(true);
    with_first_leg(&mut t);
    t.process_snapshot(&snapshot(40, 50), PERIOD + 20);
    assert!(t.finish_buy(true).is_ok());
    for i in 0..10 {
        let r = t.process_snapshot(&snapshot(90 - 9 * i, 10), PERIOD + 21 + i as u64);
        assert_eq!(r.step, SnapshotStep::Idle);
    }
    assert_eq!(t.finish_buy(true), Ok(None));
}

#[test]
fn failed_order_leaves_no_trace() {
    let mut t = trader(false);
    t.process_snapshot(&snapshot(50, 50), PERIOD + 10);
    t.process_snapshot(&snapshot(40, 58), PERIOD + 13);
    assert_eq!(t.finish_buy(false), Ok(None));
    assert!(t.pending_purchase().is_none());
    assert!(t.open_trades().is_empty());
    // The dump is still there, so the next snapshot asks again.
    let r = t.process_snapshot(&snapshot(40, 58), PERIOD + 14);
    assert_eq!(r.step, SnapshotStep::Buy);
}

#[test]
fn simulation_places_no_order() {
    for simulation in [true, false] {
        let mut t = trader(simulation);
        assert!(t.execute_buy().is_none());
        t.process_snapshot(&snapshot(50, 50), PERIOD + 10);
        t.process_snapshot(&snapshot(40, 58), PERIOD + 13);
        match t.execute_buy().unwrap() {
            OrderAction::Simulate => assert!(simulation),
            OrderAction::Place { token_id, shares } => {
                assert!(!simulation);
                assert_eq!(token_id, "market-up");
                assert_eq!(shares, 10 * ONE as i128);
            }
        }
    }
}

#[test]
fn order_size_is_rounded() {
    let mut t = DumpHedgeTrader::new(false, 1_234_567_890, 95 * CENT, 15 * CENT, 2, 5, 0);
    t.process_snapshot(&snapshot(50, 50), PERIOD + 10);
    t.process_snapshot(&snapshot(40, 58), PERIOD + 13);
    match t.execute_buy().unwrap() {
        OrderAction::Place { shares, .. } => assert_eq!(shares, 1_234_600_000),
        other => panic!("{:?}", other),
    }
    assert_eq!(t.pending_purchase().unwrap().shares, 1_234_567_890);
}

#[test]
fn markets_do_not_disturb_each_other() {
    let mut t = trader(true);
    let other = |up: i64| market_snapshot("other", PERIOD, Some(up * CENT), Some(50 * CENT));
    t.process_snapshot(&snapshot(50, 50), PERIOD + 10);
    t.process_snapshot(&other(80), PERIOD + 11);
    t.process_snapshot(&snapshot(40, 58), PERIOD + 13);
    assert!(t.finish_buy(true).is_ok());
    let r = t.process_snapshot(&other(60), PERIOD + 14);
    assert_eq!(r.round, RoundEvent::Continuing);
    assert_eq!(t.pending_purchase().unwrap().condition_id, "other");
}

#[test]
fn next_round_starts_afresh() {
    let mut t = trader(true);
    with_first_leg(&mut t);
    let next = market_snapshot("market", PERIOD + 900, Some(20 * CENT), Some(50 * CENT));
    let r = t.process_snapshot(&next, PERIOD + 901);
    assert_eq!(r.round, RoundEvent::Started);
    assert_eq!(r.step, SnapshotStep::Idle);
}

#[test]
fn reset_forgets_markets_and_keeps_the_books() {
    let mut t = trader(true);
    with_first_leg(&mut t);
    t.process_snapshot(&snapshot(40, 50), PERIOD + 20);
    assert!(t.finish_buy(true).is_ok());
    let profit = t.get_total_profit();
    assert_eq!(profit, ONE as i128 * ONE as i128);
    t.reset_period();
    assert_eq!(t.get_total_profit(), profit);
    assert_eq!(t.get_period_profit(), profit);
    assert_eq!(t.open_trades().len(), 1);
    let r = t.process_snapshot(&snapshot(50, 50), PERIOD + 21);
    assert_eq!(r.round, RoundEvent::Started);
}

#[test]
fn history_keeps_ten_samples() {
    let mut h = VecDeque::new();
    for i in 0..12u64 {
        polymarket_arbitrage_bot::history::add_sample(&mut h, i, CENT);
    }
    assert_eq!(h.len(), 10);
    assert_eq!(h.front(), Some(&(2, CENT)));
    assert_eq!(h.back(), Some(&(11, CENT)));
}

#[test]
fn impossible_times_are_told_apart() {
    let mut t = trader(true);
    assert!(t.accepts(&snapshot(50, 50), PERIOD));
    let end = market_snapshot("market", u64::MAX - 119, Some(CENT), Some(CENT));
    assert!(!t.accepts(&end, u64::MAX));
    let end = market_snapshot("market", u64::MAX - 120, Some(CENT), Some(CENT));
    assert!(t.accepts(&end, u64::MAX));
    with_first_leg(&mut t);
    assert!(!t.accepts(&snapshot(40, 50), PERIOD + 12));
    assert!(t.accepts(&snapshot(40, 0), PERIOD + 12));
    assert!(t.accepts(&snapshot(40, 50), PERIOD + 13));
    let t = DumpHedgeTrader::new(true, 0, 0, 0, u64::MAX, 0, 0);
    assert!(!t.accepts(&snapshot(50, 50), PERIOD));
}

#[test]
fn mode_and_percentage_do_not_change_the_logic() {
    let mut a = trader(true);
    let mut b = DumpHedgeTrader::new(false, 10 * ONE, 95 * CENT, 15 * CENT, 2, 5, -7);
    let asks = [(50, 50), (49, 51), (40, 58), (41, 57), (42, 54), (43, 40)];
    for (i, (up, down)) in asks.iter().enumerate() {
        let now = PERIOD + 3 * i as u64;
        let s = snapshot(*up, *down);
        assert_eq!(a.process_snapshot(&s, now), b.process_snapshot(&s, now));
        assert_eq!(a.finish_buy(true), b.finish_buy(true));
    }
    assert_eq!(a.get_total_profit(), b.get_total_profit());
    assert_ne!(a.get_total_profit(), 0);
}

#[test]
fn pair_price_is_added_exactly() {
    // In binary floating point 0.40 + 0.55 exceeds 0.95; here it does not.
    assert!(0.40f64 + 0.55f64 > 0.95f64);
    let mut t = trader(true);
    with_first_leg(&mut t);
    t.process_snapshot(&snapshot(40, 55), PERIOD + 20);
    assert!(t.pending_purchase().is_some());
}

#[test]
fn rounding_to_lots() {
    let lot = LOT as i128;
    assert_eq!(round_to_lot(0), 0);
    assert_eq!(round_to_lot(149_999), lot);
    assert_eq!(round_to_lot(150_001), 2 * lot);
    assert_eq!(round_to_lot(-149_999), -lot);
    assert_eq!(round_to_lot(-150_001), -2 * lot);
    assert_eq!(round_to_lot(i64::MAX), 92_233_720_368_548 * lot);
    assert_eq!(round_to_lot(i64::MIN), -92_233_720_368_548 * lot);
}

#[test]
fn half_lots_go_where_their_doubles_lie() {
    let lot = LOT as i128;
    assert_eq!(round_to_lot(50_000), lot);
    assert_eq!(round_to_lot(150_000), lot);
    assert_eq!(round_to_lot(-150_000), -lot);
    assert_eq!(round_to_lot(250_000), 3 * lot);
    // 1.00195 shares
    assert_eq!(round_to_lot(1_001_950_000), 10_019 * lot);
    assert_eq!(round_to_lot(1_000_050_000), 10_001 * lot);
}

#[test]
fn rounding_agrees_with_doubles() {
    let check = |amount: i64| {
        let double = (amount as f64 / 1e9 * 10000.0).round() as i128;
        assert_eq!(round_to_lot(amount), double * LOT as i128, "{}", amount);
    };
    for i in 0..20_000i64 {
        check(50_000 + 100_000 * i);
        check(-50_000 - 100_000 * 31 * i);
        check(7_919 * i * i);
    }
    // Doubles hold every amount of billionths up to two to the power of 53.
    for i in 0..20_000i64 {
        check((1 << 53) - 50_003 * i);
    }
}

#[test]
fn side_names() {
    assert_eq!(Side::Up.name(), "Up");
    assert_eq!(Side::Down.name(), "Down");
    assert_eq!(Side::Up.opposite(), Side::Down);
    assert_eq!(Side::Down.opposite(), Side::Up);
}
