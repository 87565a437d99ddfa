use polymarket_arbitrage_bot::closure::{ClosureStep, Resolution, ResolvedMarket, ResolvedToken};
use polymarket_arbitrage_bot::ledger::{
    product, Booked, CycleTrade, Ledger, LedgerOverflow, Position, DUST,
};
use polymarket_arbitrage_bot::market::{
    FirstLeg, Leg, MarketData, MarketSnapshot, Purchase, Side, TokenQuote,
};
use polymarket_arbitrage_bot::trader::DumpHedgeTrader;
use polymarket_arbitrage_bot::units::ONE;

const CENT: i64 = ONE / 100;
const PERIOD: u64 = 1_700_000_100;

fn dollars_in_cents(cents: i128) -> i128 {
    cents * CENT as i128 * ONE as i128
}

fn snapshot(up_cents: i64, down_cents: i64) -> MarketSnapshot {
    MarketSnapshot {
        market_name: "BTC 15m".to_string(),
        btc_market_15m: MarketData {
            condition_id: "0xmarket".to_string(),
            up_token: Some(TokenQuote { token_id: "u".to_string(), ask: Some(up_cents * CENT) }),
            down_token: Some(TokenQuote { token_id: "d".to_string(), ask: Some(down_cents * CENT) }),
        },
        btc_15m_period_timestamp: PERIOD,
        btc_15m_time_remaining: 0,
    }
}

fn trader_with_first_leg(simulation: bool) -> DumpHedgeTrader {
    let mut t =
        DumpHedgeTrader::new(simulation, 10 * ONE, 95 * CENT, 15 * CENT, 2, 5, 20 * CENT);
    t.process_snapshot(&snapshot(50, 50), PERIOD + 10);
    t.process_snapshot(&snapshot(40, 58), PERIOD + 13);
    assert!(t.finish_buy(true).is_ok());
    t
}

fn hedged_trader(simulation: bool) -> DumpHedgeTrader {
    let mut t = trader_with_first_leg(simulation);
    t.process_snapshot(&snapshot(40, 52), PERIOD + 20);
    assert!(t.finish_buy(true).is_ok());
    t
}

fn resolved(winner: &str) -> ResolvedMarket {
    ResolvedMarket {
        closed: true,
        tokens: vec![
            ResolvedToken { token_id: "u".to_string(), winner: winner == "u" },
            ResolvedToken { token_id: "d".to_string(), winner: winner == "d" },
        ],
    }
}

fn purchase(side: Side, shares: i64, price: i64, leg: Leg) -> Purchase {
    Purchase {
        condition_id: "0xmarket".to_string(),
        period_timestamp: PERIOD,
        side,
        token_id: "t".to_string(),
        shares,
        price,
        leg,
    }
}

#[test]
fn products_are_exact() {
    assert_eq!(product(40 * CENT, 10 * ONE), dollars_in_cents(400));
    assert_eq!(product(i64::MIN, i64::MIN), 1i128 << 126);
    assert_eq!(product(i64::MIN, i64::MAX), -(1i128 << 126) + (1i128 << 63));
}

#[test]
fn position_adds_up_its_cost() {
    let mut p = Position::empty();
    assert_eq!(p.buy(&"a".to_string(), 10 * ONE, 40 * CENT), Ok(()));
    assert_eq!(p.buy(&"b".to_string(), 30 * ONE, 60 * CENT), Ok(()));
    assert_eq!(p.token_id, Some("b".to_string()));
    assert_eq!(p.shares, 40 * ONE);
    // An average of 55 cents.
    assert_eq!(p.cost, dollars_in_cents(40 * 55));
}

#[test]
fn position_without_shares_has_the_last_price() {
    let mut p = Position::empty();
    assert_eq!(p.buy(&"a".to_string(), -10 * ONE, 40 * CENT), Ok(()));
    assert_eq!(p.cost, dollars_in_cents(-400));
    assert_eq!(p.buy(&"a".to_string(), 5 * ONE, 20 * CENT), Ok(()));
    assert_eq!(p.shares, -5 * ONE);
    assert_eq!(p.cost, dollars_in_cents(-100));
    assert_eq!(p.buy(&"a".to_string(), 5 * ONE, 20 * CENT), Ok(()));
    assert_eq!((p.shares, p.cost), (0, 0));
}

#[test]
fn position_overflow_changes_nothing() {
    let mut p = Position::empty();
    assert_eq!(p.buy(&"a".to_string(), i64::MAX, CENT), Ok(()));
    assert_eq!(p.buy(&"b".to_string(), 1, CENT), Err(LedgerOverflow));
    assert_eq!(p.shares, i64::MAX);
    assert_eq!(p.token_id, Some("a".to_string()));
}

#[test]
fn position_results() {
    let mut p = Position::empty();
    assert_eq!(p.result(true), Some(0));
    p.buy(&"a".to_string(), 10 * ONE, 40 * CENT).unwrap();
    assert_eq!(p.result(true), Some(dollars_in_cents(600)));
    assert_eq!(p.result(false), Some(dollars_in_cents(-400)));
    let dust = Position { token_id: None, shares: DUST, cost: 1 };
    assert_eq!(dust.result(true), Some(0));
    assert_eq!(dust.result(false), Some(0));
    let more = Position { token_id: None, shares: DUST + 1, cost: 1 };
    assert_eq!(more.result(false), Some(-1));
    let extreme = Position { token_id: None, shares: ONE, cost: i128::MIN };
    assert_eq!(extreme.result(false), None);
}

#[test]
fn ledger_overflow_changes_nothing() {
    let mut l = Ledger::new();
    let leg1 = FirstLeg { side: Side::Up, entry_price: i64::MIN, shares: i64::MIN };
    let p = purchase(Side::Down, i64::MIN, i64::MIN, Leg::Hedge { leg1 });
    assert_eq!(l.book_purchase(&p), Err(LedgerOverflow));
    assert!(l.open_trades().is_empty());
    assert_eq!(l.total_profit(), 0);

    let ok = purchase(Side::Up, i64::MAX, CENT, Leg::First { timestamp: 7 });
    assert_eq!(l.book_purchase(&ok), Ok(Booked::FirstLeg { timestamp: 7 }));
    assert_eq!(l.book_purchase(&ok), Err(LedgerOverflow));
    let trades = l.open_trades();
    assert_eq!(trades.len(), 1);
    assert_eq!(trades[0].up.shares, i64::MAX);
}

#[test]
fn ledger_total_overflow_changes_nothing() {
    let mut l = Ledger::new();
    let leg1 = FirstLeg { side: Side::Up, entry_price: i64::MAX, shares: i64::MIN };
    let p = |side| purchase(side, 0, 1, Leg::StopLoss { leg1 });
    let mut booked = 0;
    while l.book_purchase(&p(Side::Up)).is_ok() {
        booked += 1;
        assert!(booked < 10);
    }
    assert_eq!(booked, 2);
    assert_eq!(l.total_profit(), 2 * product(i64::MAX, i64::MAX) + 2 * i64::MAX as i128);
    assert_eq!(l.total_profit(), l.period_profit());
}

#[test]
fn closing_overflow_changes_nothing() {
    let mut l = Ledger::new();
    let trade = CycleTrade {
        condition_id: "0xmarket".to_string(),
        period_timestamp: PERIOD,
        up: Position { token_id: None, shares: ONE, cost: i128::MIN },
        down: Position::empty(),
        expected_profit: 0,
    };
    assert_eq!(l.close_trade(&trade, false, false), Err(LedgerOverflow));
    assert_eq!(l.total_profit(), 0);
}

#[test]
fn trades_are_kept_per_market_and_round() {
    let mut l = Ledger::new();
    let mut p = purchase(Side::Up, ONE, 40 * CENT, Leg::First { timestamp: 1 });
    l.book_purchase(&p).unwrap();
    p.period_timestamp += 900;
    l.book_purchase(&p).unwrap();
    p.condition_id = "0xother".to_string();
    l.book_purchase(&p).unwrap();
    assert_eq!(l.open_trades().len(), 3);
    let trade = &l.open_trades()[0];
    assert_eq!(l.close_trade(trade, true, false), Ok(dollars_in_cents(60)));
    assert_eq!(l.open_trades().len(), 2);
}

#[test]
fn trade_of_a_hedged_cycle() {
    let t = hedged_trader(true);
    let trades = t.open_trades();
    assert_eq!(trades.len(), 1);
    let trade = &trades[0];
    assert_eq!(trade.condition_id, "0xmarket");
    assert_eq!(trade.period_timestamp, PERIOD);
    assert_eq!(trade.up.token_id, Some("u".to_string()));
    assert_eq!(trade.up.shares, 10 * ONE);
    assert_eq!(trade.up.cost, dollars_in_cents(400));
    assert_eq!(trade.down.token_id, Some("d".to_string()));
    assert_eq!(trade.down.shares, 10 * ONE);
    assert_eq!(trade.down.cost, dollars_in_cents(520));
    assert_eq!(trade.expected_profit, dollars_in_cents(80));
}

#[test]
fn closure_waits_for_the_end_of_the_round() {
    let t = hedged_trader(true);
    let trade = t.open_trades().remove(0);
    assert_eq!(t.check_market_closure(&trade, PERIOD + 899), ClosureStep::StillRunning);
    assert_eq!(
        t.check_market_closure(&trade, PERIOD + 900),
        ClosureStep::Query {
            time_since_close: 0,
            minutes_since_close: 0,
            seconds_since_close: 0
        }
    );
    assert_eq!(
        t.check_market_closure(&trade, PERIOD + 900 + 125),
        ClosureStep::Query {
            time_since_close: 125,
            minutes_since_close: 2,
            seconds_since_close: 5
        }
    );
}

#[test]
fn open_market_is_asked_about_again() {
    let t = hedged_trader(true);
    let trade = t.open_trades().remove(0);
    let open = ResolvedMarket { closed: false, tokens: vec![] };
    for (seconds, expected) in [(0, true), (59, true), (60, true), (61, false), (120, true)] {
        match t.resolve_trade(&trade, &open, seconds) {
            Resolution::NotClosed { report } => assert_eq!(report, expected),
            other => panic!("{:?}", other),
        }
    }
}

#[test]
fn hedged_cycle_pays_what_was_expected() {
    for winner in ["u", "d"] {
        let mut t = hedged_trader(true);
        let trade = t.open_trades().remove(0);
        assert_eq!(t.get_total_profit(), dollars_in_cents(80));
        match t.resolve_trade(&trade, &resolved(winner), 10) {
            Resolution::Closed { up_wins, down_wins, redemptions } => {
                assert_eq!(up_wins, winner == "u");
                assert_eq!(down_wins, winner == "d");
                assert!(redemptions.is_empty());
                assert_eq!(
                    t.settle_trade(&trade, up_wins, down_wins),
                    Ok(dollars_in_cents(80))
                );
            }
            other => panic!("{:?}", other),
        }
        assert_eq!(t.get_total_profit(), dollars_in_cents(80));
        assert_eq!(t.get_period_profit(), dollars_in_cents(80));
        assert!(t.open_trades().is_empty());
        assert_eq!(
            t.check_market_closure(&trade, PERIOD + 2000),
            ClosureStep::AlreadyProcessed
        );
    }
}

#[test]
fn nobody_wins() {
    let mut t = hedged_trader(true);
    let trade = t.open_trades().remove(0);
    assert_eq!(t.settle_trade(&trade, false, false), Ok(dollars_in_cents(-920)));
    assert_eq!(t.get_total_profit(), dollars_in_cents(-920));
}

#[test]
fn unhedged_leg_is_settled_by_the_market() {
    let mut t = trader_with_first_leg(true);
    let trade = t.open_trades().remove(0);
    assert_eq!(trade.expected_profit, 0);
    assert_eq!(t.settle_trade(&trade, true, false), Ok(dollars_in_cents(600)));
    assert_eq!(t.get_total_profit(), dollars_in_cents(600));

    let mut t = trader_with_first_leg(true);
    let trade = t.open_trades().remove(0);
    assert_eq!(t.settle_trade(&trade, false, true), Ok(dollars_in_cents(-400)));
    assert_eq!(t.get_period_profit(), dollars_in_cents(-400));
}

#[test]
fn winners_are_redeemed_live() {
    let t = hedged_trader(false);
    let trade = t.open_trades().remove(0);
    match t.resolve_trade(&trade, &resolved("d"), 10) {
        Resolution::Closed { redemptions, .. } => {
            assert_eq!(redemptions.len(), 1);
            assert_eq!(redemptions[0].condition_id, "0xmarket");
            assert_eq!(redemptions[0].token_id, "d");
            assert_eq!(redemptions[0].side, Side::Down);
            assert_eq!(redemptions[0].units, 10 * ONE);
        }
        other => panic!("{:?}", other),
    }
    let both = ResolvedMarket {
        closed: true,
        tokens: vec![
            ResolvedToken { token_id: "d".to_string(), winner: true },
            ResolvedToken { token_id: "u".to_string(), winner: false },
            ResolvedToken { token_id: "u".to_string(), winner: true },
        ],
    };
    match t.resolve_trade(&trade, &both, 10) {
        Resolution::Closed { up_wins, down_wins, redemptions } => {
            assert!(up_wins && down_wins);
            assert_eq!(redemptions[0].side, Side::Up);
            assert_eq!(redemptions[1].side, Side::Down);
        }
        other => panic!("{:?}", other),
    }
}

#[test]
fn dust_and_losers_are_not_redeemed() {
    let t = hedged_trader(false);
    let mut trade = t.open_trades().remove(0);
    trade.up.shares = DUST;
    match t.resolve_trade(&trade, &resolved("u"), 10) {
        Resolution::Closed { up_wins, redemptions, .. } => {
            assert!(up_wins);
            assert!(redemptions.is_empty());
        }
        other => panic!("{:?}", other),
    }
    trade.down.token_id = None;
    match t.resolve_trade(&trade, &resolved("d"), 10) {
        Resolution::Closed { down_wins, redemptions, .. } => {
            assert!(!down_wins);
            assert!(redemptions.is_empty());
        }
        other => panic!("{:?}", other),
    }
}

#[test]
fn closing_after_a_reset() {
    let mut t = hedged_trader(true);
    t.reset_period();
    let trade = t.open_trades().remove(0);
    assert_eq!(t.settle_trade(&trade, true, false), Ok(dollars_in_cents(80)));
    assert!(t.open_trades().is_empty());
    assert_eq!(
        t.check_market_closure(&trade, PERIOD + 900),
        ClosureStep::Query {
            time_since_close: 0,
            minutes_since_close: 0,
            seconds_since_close: 0
        }
    );
}

#[test]
fn total_is_what_was_realized_and_what_is_promised() {
    let balance = |t: &DumpHedgeTrader, realized: i128| {
        let promised: i128 = t.open_trades().iter().map(|trade| trade.expected_profit).sum();
        assert_eq!(t.get_total_profit(), realized + promised);
    };
    let mut t = trader_with_first_leg(true);
    balance(&t, 0);
    t.process_snapshot(&snapshot(40, 52), PERIOD + 20);
    t.finish_buy(true).unwrap();
    balance(&t, 0);

    // An unhedged leg on another market.
    for (time, up, down) in [(30, 50, 50), (33, 60, 40)] {
        let mut other = snapshot(up, down);
        other.btc_market_15m.condition_id = "0xother".to_string();
        t.process_snapshot(&other, PERIOD + time);
    }
    t.finish_buy(true).unwrap();
    assert_eq!(t.open_trades().len(), 2);
    balance(&t, 0);

    let mut realized: i128 = 0;
    for trade in t.open_trades() {
        realized += t.settle_trade(&trade, true, false).unwrap();
        balance(&t, realized);
    }
    // 80 cents of the hedged cycle, less the four dollars of the lost leg.
    assert_eq!(realized, dollars_in_cents(80 - 400));
    assert_eq!(t.get_total_profit(), realized);
}

#[test]
fn after_a_reset_the_round_may_begin_again() {
    let mut t = hedged_trader(true);
    t.reset_period();
    t.process_snapshot(&snapshot(50, 50), PERIOD + 30);
    t.process_snapshot(&snapshot(40, 58), PERIOD + 33);
    assert!(matches!(t.finish_buy(true), Ok(Some(Booked::FirstLeg { .. }))));
    let trades = t.open_trades();
    assert_eq!(trades.len(), 1);
    assert_eq!(trades[0].up.shares, 20 * ONE);
    assert_eq!(trades[0].up.cost, dollars_in_cents(800));
}

/// One closure check of all open trades; returns how many redemptions it calls for.
fn check_all(t: &mut DumpHedgeTrader, now: u64, winner: &str) -> usize {
    let mut redeemed = 0;
    for trade in t.open_trades() {
        if let ClosureStep::Query { time_since_close, .. } = t.check_market_closure(&trade, now) {
            match t.resolve_trade(&trade, &resolved(winner), time_since_close) {
                Resolution::Closed { up_wins, down_wins, redemptions } => {
                    redeemed += redemptions.len();
                    t.settle_trade(&trade, up_wins, down_wins).unwrap();
                }
                other => panic!("{:?}", other),
            }
        }
    }
    redeemed
}

#[test]
fn repeated_check_changes_nothing() {
    let mut t = hedged_trader(false);
    // A first leg of a later round, which is still running at the check.
    for (time, up, down) in [(910, 50, 50), (913, 60, 40)] {
        let mut other = snapshot(up, down);
        other.btc_market_15m.condition_id = "0xother".to_string();
        other.btc_15m_period_timestamp = PERIOD + 900;
        t.process_snapshot(&other, PERIOD + time);
    }
    t.finish_buy(true).unwrap();
    assert_eq!(t.open_trades().len(), 2);

    let now = PERIOD + 920;
    assert_eq!(check_all(&mut t, now, "u"), 1);
    let total = t.get_total_profit();
    assert_eq!(total, dollars_in_cents(80));
    assert_eq!(t.open_trades().len(), 1);

    assert_eq!(check_all(&mut t, now, "u"), 0);
    assert_eq!(t.get_total_profit(), total);
    assert_eq!(t.get_period_profit(), total);
    assert_eq!(t.open_trades().len(), 1);
}

#[test]
fn two_purchases_make_a_pair() {
    let mut t =
        DumpHedgeTrader::new(true, 10 * ONE, 95 * CENT, 15 * CENT, 2, 5, 20 * CENT);
    let mut made = Vec::new();
    for time in (10..110).step_by(3) {
        let dumped = if time % 2 == 0 { 50 } else { 40 };
        t.process_snapshot(&snapshot(dumped, 52), PERIOD + time);
        if let Some(p) = t.pending_purchase() {
            made.push((p.side, p.shares));
        }
        t.finish_buy(true).unwrap();
    }
    assert_eq!(made, vec![(Side::Up, 10 * ONE), (Side::Down, 10 * ONE)]);
}
