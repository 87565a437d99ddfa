//! The dump-and-hedge trader.
//!
//! The trader decides; its caller talks to the exchange. A snapshot may leave a
//! purchase pending: the caller carries out [`DumpHedgeTrader::execute_buy`] and
//! reports its fate to [`DumpHedgeTrader::finish_buy`] before the next snapshot.

use std::collections::VecDeque;
use vstd::prelude::*;

use crate::closure::{resolve, ClosureStep, Resolution, ResolvedMarket};
use crate::history::{self, add_sample, dump_verdict};
use crate::ledger::{
    completes, cycle_cost, cycle_profit, Booked, CycleTrade, Ledger, LedgerOverflow, LedgerView,
};
use crate::market::{
    ask_price, CompletedCycle, FirstLeg, Leg, MarketSnapshot, MarketState, Purchase, Side,
    TradingPhase,
};
use crate::model::{
    lemma_closure_keeps_valid, lemma_purchase_keeps_valid, lemma_snapshot_keeps_valid, RoundEvent,
    SnapshotReport, SnapshotStep, Strategy, TraderView,
};
use crate::schedule::ROUND_SECONDS;
use crate::table::{lists, Entry, Table};
use crate::units::{round_to_lot, rounded_to_lot};

verus! {

/// What is to be done about a pending purchase.
#[derive(Debug)]
pub enum OrderAction {
    /// Paper trading: the order counts as executed.
    Simulate,
    /// Place a market order to buy.
    Place { token_id: String, shares: i128 },
}

/// Trades dumps on any number of markets, one cycle per market and round.
pub struct DumpHedgeTrader {
    simulation_mode: bool,
    strategy: Strategy,
    markets: Table<MarketState>,
    ledger: Ledger,
    pending: Option<Purchase>,
}

impl View for DumpHedgeTrader {
    type V = TraderView;

    closed spec fn view(&self) -> TraderView {
        TraderView {
            simulation_mode: self.simulation_mode,
            strategy: self.strategy,
            markets: self.markets@,
            ledger: self.ledger@,
            pending: match self.pending {
                Some(p) => Some(p@),
                None => None,
            },
        }
    }
}

impl DumpHedgeTrader {
    /// The collections are intact.
    pub closed spec fn intact(&self) -> bool {
        self.markets.wf() && self.ledger.wf()
    }

    /// The trader is intact and in a valid state.
    pub open spec fn wf(&self) -> bool {
        self.intact() && self@.valid()
    }

    /// A trader that has seen nothing yet.
    pub fn new(
        simulation_mode: bool,
        shares: i64,
        sum_target: i64,
        move_threshold: i64,
        window_minutes: u64,
        stop_loss_max_wait_minutes: u64,
        stop_loss_percentage: i64,
    ) -> (r: DumpHedgeTrader)
        ensures
            r.wf(),
            r@ == (TraderView {
                simulation_mode,
                strategy: Strategy {
                    shares,
                    sum_target,
                    move_threshold,
                    window_minutes,
                    stop_loss_max_wait_minutes,
                    stop_loss_percentage,
                },
                markets: Map::empty(),
                ledger: LedgerView { trades: Map::empty(), total_profit: 0, period_profit: 0 },
                pending: None,
            }),
    {
        DumpHedgeTrader {
            simulation_mode,
            strategy: Strategy {
                shares,
                sum_target,
                move_threshold,
                window_minutes,
                stop_loss_max_wait_minutes,
                stop_loss_percentage,
            },
            markets: Table::new(),
            ledger: Ledger::new(),
            pending: None,
        }
    }

    /// Looks for a dump in a price history.
    pub fn check_dump(&self, price_history: &VecDeque<(u64, i64)>, current_time: u64) -> (r: Option<
        bool,
    >)
        ensures
            r == dump_verdict(price_history@, current_time, self@.strategy.move_threshold),
    {
        history::check_dump(price_history, current_time, self.strategy.move_threshold)
    }

    /// Whether the times of a snapshot make sense; see [`TraderView::accepts`].
    pub fn accepts(&self, snapshot: &MarketSnapshot, current_time: u64) -> (r: bool)
        requires
            self.wf(),
        ensures
            r == self@.accepts(snapshot@, current_time),
    {
        let period_timestamp: u64 = snapshot.btc_15m_period_timestamp;
        match self.markets.get(&snapshot.btc_market_15m.condition_id) {
            Some(market) if market.period_timestamp == period_timestamp => {
                let up_ask: i64 = ask_price(&snapshot.btc_market_15m.up_token);
                let down_ask: i64 = ask_price(&snapshot.btc_market_15m.down_token);
                if up_ask <= 0 || down_ask <= 0 {
                    return true;
                }
                match &market.phase {
                    TradingPhase::WaitingForHedge { leg1, leg1_token_id, leg1_timestamp } => {
                        *leg1_timestamp <= current_time
                    },
                    _ => true,
                }
            },
            _ => match self.strategy.window_minutes.checked_mul(60) {
                Some(seconds) => period_timestamp.checked_add(seconds).is_some(),
                None => false,
            },
        }
    }

    /// The market of a snapshot as it stands before it, taken out of the table.
    fn take_market(&mut self, snapshot: &MarketSnapshot, current_time: u64) -> (r: (
        MarketState,
        RoundEvent,
    ))
        requires
            old(self).wf(),
            old(self)@.accepts(snapshot@, current_time),
        ensures
            final(self).intact(),
            final(self)@ == (TraderView {
                markets: old(self)@.markets.remove(snapshot@.condition_id),
                ..old(self)@
            }),
            r.0.key() == snapshot@.condition_id,
            r.0@ == old(self)@.current_market(snapshot@, current_time),
            r.1 == old(self)@.round_event(snapshot@, current_time),
    {
        let condition_id: &String = &snapshot.btc_market_15m.condition_id;
        let period_timestamp: u64 = snapshot.btc_15m_period_timestamp;
        if let Some(market) = self.markets.take(condition_id) {
            if market.period_timestamp == period_timestamp {
                return (market, RoundEvent::Continuing);
            }
        }
        let window_end_time: u64 = period_timestamp + self.strategy.window_minutes * 60;
        let (phase, event): (TradingPhase, RoundEvent) = if current_time <= window_end_time {
            (
                TradingPhase::WatchingForDump {
                    round_start_time: period_timestamp,
                    window_end_time,
                },
                RoundEvent::Started,
            )
        } else {
            (
                TradingPhase::CycleComplete { cycle: None },
                RoundEvent::Missed { minutes_elapsed: (current_time - period_timestamp) / 60 },
            )
        };
        let market: MarketState = MarketState {
            condition_id: condition_id.clone(),
            period_timestamp,
            up_token_id: None,
            down_token_id: None,
            up_price_history: VecDeque::new(),
            down_price_history: VecDeque::new(),
            phase,
            closure_checked: false,
        };
        (market, event)
    }

    /// Takes in a snapshot's tokens and prices.
    fn observe(market: &mut MarketState, snapshot: &MarketSnapshot, current_time: u64)
        ensures
            final(market).key() == old(market).key(),
            final(market)@ == old(market)@.observing(snapshot@, current_time),
    {
        if let Some(token) = &snapshot.btc_market_15m.up_token {
            market.up_token_id = Some(token.token_id.clone());
        }
        if let Some(token) = &snapshot.btc_market_15m.down_token {
            market.down_token_id = Some(token.token_id.clone());
        }
        let up_ask: i64 = ask_price(&snapshot.btc_market_15m.up_token);
        let down_ask: i64 = ask_price(&snapshot.btc_market_15m.down_token);
        if up_ask > 0 && down_ask > 0 {
            add_sample(&mut market.up_price_history, current_time, up_ask);
            add_sample(&mut market.down_price_history, current_time, down_ask);
        }
    }

    /// Decides what to do about an observed market.
    fn decide(
        &self,
        market: &MarketState,
        snapshot: &MarketSnapshot,
        current_time: u64,
        Ghost(before): Ghost<TraderView>,
    ) -> (r: (SnapshotStep, Option<Purchase>))
        requires
            self@.strategy == before.strategy,
            before.accepts(snapshot@, current_time),
            market.key() == snapshot@.condition_id,
            market@ == before.observed_market(snapshot@, current_time),
        ensures
            r.0 == before.decide(snapshot@, current_time).0,
            match r.1 {
                Some(p) => Some(p@) == before.decide(snapshot@, current_time).1,
                None => before.decide(snapshot@, current_time).1 is None,
            },
    {
        let up_ask: i64 = ask_price(&snapshot.btc_market_15m.up_token);
        let down_ask: i64 = ask_price(&snapshot.btc_market_15m.down_token);
        if up_ask <= 0 || down_ask <= 0 {
            return (SnapshotStep::NoPrices, None);
        }
        let shares: i64 = self.strategy.shares;
        let (side, shares, leg): (Side, i64, Leg) = match &market.phase {
            TradingPhase::WatchingForDump { round_start_time, window_end_time } => {
                if current_time > *window_end_time {
                    return (SnapshotStep::Idle, None);
                }
                let leg: Leg = Leg::First { timestamp: current_time };
                if let Some(true) = self.check_dump(&market.up_price_history, current_time) {
                    (Side::Up, shares, leg)
                } else if let Some(true) = self.check_dump(
                    &market.down_price_history,
                    current_time,
                ) {
                    (Side::Down, shares, leg)
                } else {
                    return (SnapshotStep::Idle, None);
                }
            },
            TradingPhase::WaitingForHedge { leg1, leg1_token_id, leg1_timestamp } => {
                let minutes_waited: u64 = (current_time - *leg1_timestamp) / 60;
                let side: Side = leg1.side.opposite();
                let opposite_ask: i64 = match side {
                    Side::Up => up_ask,
                    Side::Down => down_ask,
                };
                let total_price: i128 = leg1.entry_price as i128 + opposite_ask as i128;
                if minutes_waited >= self.strategy.stop_loss_max_wait_minutes {
                    (side, leg1.shares, Leg::StopLoss { leg1: *leg1 })
                } else if total_price <= self.strategy.sum_target as i128 {
                    (side, shares, Leg::Hedge { leg1: *leg1 })
                } else {
                    return (
                        SnapshotStep::WaitingForHedge {
                            leg1: *leg1,
                            opposite_ask,
                            total_price,
                            minutes_waited,
                            report: current_time % 10 == 0,
                        },
                        None,
                    );
                }
            },
            TradingPhase::CycleComplete { cycle } => {
                return (SnapshotStep::Idle, None);
            },
        };
        let (token_id, price): (&Option<String>, i64) = match side {
            Side::Up => (&market.up_token_id, up_ask),
            Side::Down => (&market.down_token_id, down_ask),
        };
        match token_id {
            Some(token_id) => (
                SnapshotStep::Buy,
                Some(
                    Purchase {
                        condition_id: market.condition_id.clone(),
                        period_timestamp: market.period_timestamp,
                        side,
                        token_id: token_id.clone(),
                        shares,
                        price,
                        leg,
                    },
                ),
            ),
            None => {
                assert(false);
                (SnapshotStep::Idle, None)
            },
        }
    }

    /// Processes a market snapshot. Where the strategy asks for a purchase, the
    /// purchase is pending afterwards; one that was pending before is dropped.
    pub fn process_snapshot(&mut self, snapshot: &MarketSnapshot, current_time: u64) -> (r:
        SnapshotReport)
        requires
            old(self).wf(),
            old(self)@.accepts(snapshot@, current_time),
        ensures
            final(self).wf(),
            final(self)@ == old(self)@.after_snapshot(snapshot@, current_time),
            r.round == old(self)@.round_event(snapshot@, current_time),
            r.step == old(self)@.decide(snapshot@, current_time).0,
    {
        let ghost before = self@;
        proof {
            lemma_snapshot_keeps_valid(before, snapshot@, current_time);
        }
        let (mut market, round): (MarketState, RoundEvent) = self.take_market(
            snapshot,
            current_time,
        );
        Self::observe(&mut market, snapshot, current_time);
        let (step, purchase): (SnapshotStep, Option<Purchase>) = self.decide(
            &market,
            snapshot,
            current_time,
            Ghost(before),
        );
        self.pending = purchase;
        self.markets.insert(market);
        proof {
            assert(self@.markets =~= before.after_snapshot(snapshot@, current_time).markets);
        }
        SnapshotReport { round, step }
    }

    /// The purchase that waits for its order.
    pub fn pending_purchase(&self) -> (r: Option<&Purchase>)
        ensures
            match r {
                Some(p) => self@.pending == Some(p@),
                None => self@.pending is None,
            },
    {
        match &self.pending {
            Some(p) => Some(p),
            None => None,
        }
    }

    /// What to do about the pending purchase: in simulation mode nothing, else a
    /// market order for the shares, rounded to whole lots.
    pub fn execute_buy(&self) -> (r: Option<OrderAction>)
        ensures
            r is Some <==> self@.pending is Some,
            match r {
                Some(OrderAction::Simulate) => self@.simulation_mode,
                Some(OrderAction::Place { token_id, shares }) => {
                    &&& !self@.simulation_mode
                    &&& token_id@ == self@.pending->0.token_id
                    &&& shares == rounded_to_lot(self@.pending->0.shares as int)
                },
                None => true,
            },
    {
        match &self.pending {
            Some(p) => if self.simulation_mode {
                Some(OrderAction::Simulate)
            } else {
                Some(
                    OrderAction::Place {
                        token_id: p.token_id.clone(),
                        shares: round_to_lot(p.shares),
                    },
                )
            },
            None => None,
        }
    }

    /// Ends the pending purchase. One whose order was placed is booked and moves
    /// its market to the next phase; one whose order failed leaves no trace.
    pub fn finish_buy(&mut self, placed: bool) -> (r: Result<Option<Booked>, LedgerOverflow>)
        requires
            old(self).wf(),
        ensures
            final(self).wf(),
            match old(self)@.pending {
                Some(p) if placed => {
                    &&& r is Ok <==> old(self)@.ledger.has_room_for(p)
                    &&& r is Ok ==> final(self)@ == old(self)@.after_purchase(p)
                    &&& r is Err ==> final(self)@ == old(self)@.without_pending()
                    &&& r matches Ok(b) ==> match completes(p.leg) {
                        Some(leg1) => {
                            &&& b matches Some(Booked::Cycle { leg1: l, total_cost, expected_profit })
                            &&& l == leg1
                            &&& total_cost == cycle_cost(leg1, p.shares, p.price)
                            &&& expected_profit == cycle_profit(leg1, p.shares, p.price)
                        },
                        None => b == Some(Booked::FirstLeg { timestamp: p.leg->timestamp }),
                    }
                },
                _ => {
                    &&& r == Ok::<Option<Booked>, LedgerOverflow>(None)
                    &&& final(self)@ == old(self)@.without_pending()
                },
            },
    {
        let ghost before = self@;
        let pending: Option<Purchase> = self.pending.take();
        if !placed {
            return Ok(None);
        }
        let p: Purchase = match pending {
            Some(p) => p,
            None => {
                return Ok(None);
            },
        };
        let booked: Booked = match self.ledger.book_purchase(&p) {
            Ok(booked) => booked,
            Err(e) => {
                return Err(e);
            },
        };
        proof {
            lemma_purchase_keeps_valid(before, p@);
        }
        if let Some(mut market) = self.markets.take(&p.condition_id) {
            market.phase = match booked {
                Booked::Cycle { leg1, total_cost, expected_profit } => {
                    TradingPhase::CycleComplete {
                        cycle: Some(
                            CompletedCycle {
                                leg1,
                                leg2_side: p.side,
                                leg2_entry_price: p.price,
                                leg2_shares: p.shares,
                                total_cost,
                            },
                        ),
                    }
                },
                Booked::FirstLeg { timestamp } => TradingPhase::WaitingForHedge {
                    leg1: FirstLeg { side: p.side, entry_price: p.price, shares: p.shares },
                    leg1_token_id: p.token_id.clone(),
                    leg1_timestamp: timestamp,
                },
            };
            self.markets.insert(market);
        }
        proof {
            assert(self@.markets =~= before.after_purchase(p@).markets);
        }
        Ok(Some(booked))
    }

    /// Copies of all trades that are still open.
    pub fn open_trades(&self) -> (r: Vec<CycleTrade>)
        requires
            self.wf(),
        ensures
            lists(r@, self@.ledger.trades),
    {
        self.ledger.open_trades()
    }

    /// Where a trade stands: its round may still run, its market may be done
    /// with, or else the exchange is to be asked about it.
    pub fn check_market_closure(&self, trade: &CycleTrade, current_time: u64) -> (r: ClosureStep)
        requires
            self.wf(),
            trade.period_timestamp + ROUND_SECONDS <= u64::MAX,
        ensures
            r == self@.closure_step(trade.key(), current_time),
    {
        let market_end_timestamp: u64 = trade.period_timestamp + ROUND_SECONDS;
        if current_time < market_end_timestamp {
            return ClosureStep::StillRunning;
        }
        if let Some(market) = self.markets.get(&trade.condition_id) {
            if market.closure_checked {
                return ClosureStep::AlreadyProcessed;
            }
        }
        let time_since_close: u64 = current_time - market_end_timestamp;
        ClosureStep::Query {
            time_since_close,
            minutes_since_close: time_since_close / 60,
            seconds_since_close: time_since_close % 60,
        }
    }

    /// Reads the exchange's answer about the market of a trade.
    pub fn resolve_trade(
        &self,
        trade: &CycleTrade,
        market: &ResolvedMarket,
        time_since_close: u64,
    ) -> (r: Resolution)
        ensures
            r.answers(self@.simulation_mode, trade, *market, time_since_close),
    {
        resolve(self.simulation_mode, trade, market, time_since_close)
    }

    /// Books the result of a resolved trade, marks its market as done and
    /// forgets the trade. Where an amount would not fit, nothing changes.
    pub fn settle_trade(&mut self, trade: &CycleTrade, up_wins: bool, down_wins: bool) -> (r:
        Result<i128, LedgerOverflow>)
        requires
            old(self).wf(),
        ensures
            final(self).wf(),
            r is Ok <==> old(self)@.ledger.has_room_to_close(trade@, up_wins, down_wins),
            r is Ok ==> r->Ok_0 == trade@.realized(up_wins, down_wins),
            r is Ok ==> final(self)@ == old(self)@.after_closure(
                trade.key(),
                trade@,
                up_wins,
                down_wins,
            ),
            r is Err ==> final(self)@ == old(self)@,
    {
        let ghost before = self@;
        let realized: i128 = match self.ledger.close_trade(trade, up_wins, down_wins) {
            Ok(realized) => realized,
            Err(e) => {
                return Err(e);
            },
        };
        if let Some(mut market) = self.markets.take(&trade.condition_id) {
            market.closure_checked = true;
            self.markets.insert(market);
        }
        proof {
            let after = before.after_closure(trade.key(), trade@, up_wins, down_wins);
            lemma_closure_keeps_valid(before, trade.key(), trade@, up_wins, down_wins);
            assert(self@.markets =~= after.markets);
        }
        Ok(realized)
    }

    /// Forgets all markets. Open trades and profits stay.
    pub fn reset_period(&mut self)
        requires
            old(self).wf(),
        ensures
            final(self).wf(),
            final(self)@ == old(self)@.after_reset(),
    {
        self.markets.clear();
        self.pending = None;
    }

    /// The profit since the start.
    pub fn get_total_profit(&self) -> (r: i128)
        ensures
            r == self@.ledger.total_profit,
    {
        self.ledger.total_profit()
    }

    /// The profit kept for the period. No operation clears it, so it is always equal
    /// to the profit since the start.
    pub fn get_period_profit(&self) -> (r: i128)
        ensures
            r == self@.ledger.period_profit,
            self.wf() ==> r == self@.ledger.total_profit,
    {
        self.ledger.period_profit()
    }
}

} // verus!
