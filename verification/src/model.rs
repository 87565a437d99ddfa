//! The strategy as a transition system: what a snapshot, an order's fate and a
//! resolution do to the bot's state.

use vstd::prelude::*;

use crate::closure::ClosureStep;
use crate::history::{shows_dump, with_sample, HISTORY_LIMIT};
use crate::ledger::{completes, cycle_cost, LedgerView, TradeView};
use crate::market::{
    CompletedCycle, FirstLeg, Leg, MarketView, PhaseView, PurchaseView, Side, SnapshotView,
};
use crate::schedule::ROUND_SECONDS;

verus! {

/// The strategy's settings. Amounts and ratios are in billionths.
#[derive(Clone, Copy, Debug, PartialEq, Eq, Structural)]
pub struct Strategy {
    /// Shares bought in each leg.
    pub shares: i64,
    /// The highest price of a pair that locks in a hedge.
    pub sum_target: i64,
    /// The smallest fall that counts as a dump.
    pub move_threshold: i64,
    /// How long after the start of a round dumps are looked for.
    pub window_minutes: u64,
    /// How long to wait for a hedge before buying it at any price.
    pub stop_loss_max_wait_minutes: u64,
    /// Not used by any decision.
    pub stop_loss_percentage: i64,
}

impl Strategy {
    /// The end of the watch window of the round that starts at `period_timestamp`.
    pub open spec fn window_end(self, period_timestamp: u64) -> int {
        period_timestamp + self.window_minutes * 60
    }
}

/// What a snapshot says about the round.
#[derive(Clone, Copy, Debug, PartialEq, Eq, Structural)]
pub enum RoundEvent {
    /// The round was known already.
    Continuing,
    /// A new round, within its watch window.
    Started,
    /// A new round whose watch window has passed.
    Missed { minutes_elapsed: u64 },
}

/// What the strategy does about a snapshot.
#[derive(Clone, Copy, Debug, PartialEq, Eq, Structural)]
pub enum SnapshotStep {
    /// An ask price is missing.
    NoPrices,
    /// Nothing to do.
    Idle,
    /// A purchase is pending.
    Buy,
    /// The pair is still too expensive. `report` is set every ten seconds.
    WaitingForHedge {
        leg1: FirstLeg,
        opposite_ask: i64,
        total_price: i128,
        minutes_waited: u64,
        report: bool,
    },
}

/// What came of a snapshot.
#[derive(Clone, Copy, Debug, PartialEq, Eq, Structural)]
pub struct SnapshotReport {
    pub round: RoundEvent,
    pub step: SnapshotStep,
}

/// The whole state of the bot.
pub struct TraderView {
    pub simulation_mode: bool,
    pub strategy: Strategy,
    pub markets: Map<Seq<char>, MarketView>,
    pub ledger: LedgerView,
    /// The purchase that was asked for and whose order is not yet decided.
    pub pending: Option<PurchaseView>,
}

impl MarketView {
    /// The last known token of one outcome.
    pub open spec fn token_id(self, side: Side) -> Option<Seq<char>> {
        match side {
            Side::Up => self.up_token_id,
            Side::Down => self.down_token_id,
        }
    }

    /// A market at the start of a round. Where the watch window has passed
    /// already, the round is not traded.
    pub open spec fn fresh(strategy: Strategy, period_timestamp: u64, now: u64) -> MarketView {
        MarketView {
            period_timestamp,
            up_token_id: None,
            down_token_id: None,
            up_price_history: Seq::empty(),
            down_price_history: Seq::empty(),
            phase: if now <= strategy.window_end(period_timestamp) {
                PhaseView::WatchingForDump {
                    round_start_time: period_timestamp,
                    window_end_time: strategy.window_end(period_timestamp) as u64,
                }
            } else {
                PhaseView::CycleComplete { cycle: None }
            },
            closure_checked: false,
        }
    }

    /// The market after a snapshot's tokens and prices are taken in.
    pub open spec fn observing(self, snapshot: SnapshotView, now: u64) -> MarketView {
        MarketView {
            up_token_id: match snapshot.up {
                Some(token) => Some(token.token_id),
                None => self.up_token_id,
            },
            down_token_id: match snapshot.down {
                Some(token) => Some(token.token_id),
                None => self.down_token_id,
            },
            up_price_history: if snapshot.priced() {
                with_sample(self.up_price_history, (now, snapshot.ask(Side::Up)))
            } else {
                self.up_price_history
            },
            down_price_history: if snapshot.priced() {
                with_sample(self.down_price_history, (now, snapshot.ask(Side::Down)))
            } else {
                self.down_price_history
            },
            ..self
        }
    }

    /// What holds of every market that the bot tracks.
    pub open spec fn valid(self, strategy: Strategy) -> bool {
        &&& self.up_price_history.len() == self.down_price_history.len() <= HISTORY_LIMIT
        &&& forall|i: int|
            #![trigger self.up_price_history[i]]
            #![trigger self.down_price_history[i]]
            0 <= i < self.up_price_history.len() ==> {
                &&& self.up_price_history[i].0 == self.down_price_history[i].0
                &&& self.up_price_history[i].1 > 0
                &&& self.down_price_history[i].1 > 0
            }
        &&& match self.phase {
            PhaseView::WatchingForDump { round_start_time, window_end_time } => {
                &&& round_start_time == self.period_timestamp
                &&& window_end_time == strategy.window_end(self.period_timestamp)
            },
            PhaseView::WaitingForHedge { leg1, leg1_token_id, leg1_timestamp } => {
                &&& leg1.shares == strategy.shares
                &&& leg1.entry_price > 0
                &&& leg1_timestamp <= strategy.window_end(self.period_timestamp)
            },
            PhaseView::CycleComplete { cycle } => match cycle {
                Some(c) => {
                    &&& c.leg2_side == c.leg1.side.other()
                    &&& c.leg1.shares == strategy.shares
                    &&& c.leg2_shares == strategy.shares
                    &&& c.leg1.entry_price > 0
                    &&& c.leg2_entry_price > 0
                    &&& c.total_cost == cycle_cost(c.leg1, c.leg2_shares, c.leg2_entry_price)
                },
                None => true,
            },
        }
    }
}

/// The phase that a purchase leads to.
pub open spec fn phase_after(p: PurchaseView) -> PhaseView {
    match p.leg {
        Leg::First { timestamp } => PhaseView::WaitingForHedge {
            leg1: FirstLeg { side: p.side, entry_price: p.price, shares: p.shares },
            leg1_token_id: p.token_id,
            leg1_timestamp: timestamp,
        },
        _ => {
            let leg1 = completes(p.leg)->0;
            PhaseView::CycleComplete {
                cycle: Some(
                    CompletedCycle {
                        leg1,
                        leg2_side: p.side,
                        leg2_entry_price: p.price,
                        leg2_shares: p.shares,
                        total_cost: cycle_cost(leg1, p.shares, p.price) as i128,
                    },
                ),
            }
        },
    }
}

impl TraderView {
    /// Whether the snapshot's round is the one that the bot already follows.
    pub open spec fn continues(self, snapshot: SnapshotView) -> bool {
        &&& self.markets.contains_key(snapshot.condition_id)
        &&& self.markets[snapshot.condition_id].period_timestamp == snapshot.period_timestamp
    }

    /// The market that a snapshot is about, as it stands before the snapshot.
    pub open spec fn current_market(self, snapshot: SnapshotView, now: u64) -> MarketView {
        if self.continues(snapshot) {
            self.markets[snapshot.condition_id]
        } else {
            MarketView::fresh(self.strategy, snapshot.period_timestamp, now)
        }
    }

    /// The market after the snapshot is taken in.
    pub open spec fn observed_market(self, snapshot: SnapshotView, now: u64) -> MarketView {
        self.current_market(snapshot, now).observing(snapshot, now)
    }

    /// What the snapshot says about the round.
    pub open spec fn round_event(self, snapshot: SnapshotView, now: u64) -> RoundEvent {
        if self.continues(snapshot) {
            RoundEvent::Continuing
        } else if now <= self.strategy.window_end(snapshot.period_timestamp) {
            RoundEvent::Started
        } else {
            RoundEvent::Missed {
                minutes_elapsed: ((now - snapshot.period_timestamp) / 60) as u64,
            }
        }
    }

    /// Whether the times of a snapshot make sense: the watch window's end is a
    /// machine integer, and the first leg was not bought in the future.
    pub open spec fn accepts(self, snapshot: SnapshotView, now: u64) -> bool {
        &&& !self.continues(snapshot) ==> self.strategy.window_end(snapshot.period_timestamp)
            <= u64::MAX
        &&& self.continues(snapshot) && snapshot.priced() ==> match self.markets[snapshot.condition_id].phase {
            PhaseView::WaitingForHedge { leg1, leg1_token_id, leg1_timestamp } => leg1_timestamp
                <= now,
            _ => true,
        }
    }

    /// A purchase of one side at its current ask price.
    pub open spec fn purchase(
        self,
        snapshot: SnapshotView,
        now: u64,
        side: Side,
        shares: i64,
        leg: Leg,
    ) -> PurchaseView {
        PurchaseView {
            condition_id: snapshot.condition_id,
            period_timestamp: snapshot.period_timestamp,
            side,
            token_id: self.observed_market(snapshot, now).token_id(side)->0,
            shares,
            price: snapshot.ask(side),
            leg,
        }
    }

    /// What the strategy does about a snapshot, and the purchase that it asks for.
    ///
    /// Within the watch window it buys the side that was dumped, Up first. With
    /// one side bought it buys the other side once the wait is too long, or else
    /// as soon as the pair's price is within the target.
    pub open spec fn decide(self, snapshot: SnapshotView, now: u64) -> (
        SnapshotStep,
        Option<PurchaseView>,
    ) {
        let market = self.observed_market(snapshot, now);
        let s = self.strategy;
        if !snapshot.priced() {
            (SnapshotStep::NoPrices, None)
        } else {
            match market.phase {
                PhaseView::WatchingForDump { round_start_time, window_end_time } => {
                    let leg = Leg::First { timestamp: now };
                    if now > window_end_time {
                        (SnapshotStep::Idle, None)
                    } else if shows_dump(market.up_price_history, now, s.move_threshold) {
                        (
                            SnapshotStep::Buy,
                            Some(self.purchase(snapshot, now, Side::Up, s.shares, leg)),
                        )
                    } else if shows_dump(market.down_price_history, now, s.move_threshold) {
                        (
                            SnapshotStep::Buy,
                            Some(self.purchase(snapshot, now, Side::Down, s.shares, leg)),
                        )
                    } else {
                        (SnapshotStep::Idle, None)
                    }
                },
                PhaseView::WaitingForHedge { leg1, leg1_token_id, leg1_timestamp } => {
                    let side = leg1.side.other();
                    let minutes_waited = (now - leg1_timestamp) / 60;
                    let total_price = leg1.entry_price + snapshot.ask(side);
                    if minutes_waited >= s.stop_loss_max_wait_minutes {
                        let leg = Leg::StopLoss { leg1 };
                        (
                            SnapshotStep::Buy,
                            Some(self.purchase(snapshot, now, side, leg1.shares, leg)),
                        )
                    } else if total_price <= s.sum_target {
                        let leg = Leg::Hedge { leg1 };
                        (
                            SnapshotStep::Buy,
                            Some(self.purchase(snapshot, now, side, s.shares, leg)),
                        )
                    } else {
                        (
                            SnapshotStep::WaitingForHedge {
                                leg1,
                                opposite_ask: snapshot.ask(side),
                                total_price: total_price as i128,
                                minutes_waited: minutes_waited as u64,
                                report: now % 10 == 0,
                            },
                            None,
                        )
                    }
                },
                PhaseView::CycleComplete { cycle } => (SnapshotStep::Idle, None),
            }
        }
    }

    /// The state after a snapshot.
    pub open spec fn after_snapshot(self, snapshot: SnapshotView, now: u64) -> TraderView {
        TraderView {
            markets: self.markets.insert(
                snapshot.condition_id,
                self.observed_market(snapshot, now),
            ),
            pending: self.decide(snapshot, now).1,
            ..self
        }
    }

    /// The state once the pending purchase was made.
    pub open spec fn after_purchase(self, p: PurchaseView) -> TraderView {
        TraderView {
            markets: self.markets.insert(
                p.condition_id,
                MarketView { phase: phase_after(p), ..self.markets[p.condition_id] },
            ),
            ledger: self.ledger.after_purchase(p),
            pending: None,
            ..self
        }
    }

    /// The state without the pending purchase.
    pub open spec fn without_pending(self) -> TraderView {
        TraderView { pending: None, ..self }
    }

    /// The state after all markets are forgotten.
    pub open spec fn after_reset(self) -> TraderView {
        TraderView { markets: Map::empty(), pending: None, ..self }
    }

    /// Where an open trade stands.
    pub open spec fn closure_step(self, key: (Seq<char>, u64), now: u64) -> ClosureStep {
        let since = now - (key.1 + ROUND_SECONDS);
        if since < 0 {
            ClosureStep::StillRunning
        } else if self.markets.contains_key(key.0) && self.markets[key.0].closure_checked {
            ClosureStep::AlreadyProcessed
        } else {
            ClosureStep::Query {
                time_since_close: since as u64,
                minutes_since_close: (since / 60) as u64,
                seconds_since_close: (since % 60) as u64,
            }
        }
    }

    /// The state after a trade is closed: the ledger is settled, and the market,
    /// where it is still tracked, is marked as done.
    pub open spec fn after_closure(
        self,
        key: (Seq<char>, u64),
        trade: TradeView,
        up_wins: bool,
        down_wins: bool,
    ) -> TraderView {
        TraderView {
            markets: if self.markets.contains_key(key.0) {
                self.markets.insert(
                    key.0,
                    MarketView { closure_checked: true, ..self.markets[key.0] },
                )
            } else {
                self.markets
            },
            ledger: self.ledger.after_closure(key, trade, up_wins, down_wins),
            ..self
        }
    }

    /// Whether a purchase is one that the strategy asks for in this state.
    pub open spec fn offers(self, p: PurchaseView) -> bool {
        let market = self.markets[p.condition_id];
        &&& self.markets.contains_key(p.condition_id)
        &&& market.period_timestamp == p.period_timestamp
        &&& market.token_id(p.side) == Some(p.token_id)
        &&& p.price > 0
        &&& p.shares == self.strategy.shares
        &&& match completes(p.leg) {
            Some(leg1) => {
                &&& market.phase is WaitingForHedge
                &&& market.phase->leg1 == leg1
                &&& p.side == leg1.side.other()
            },
            None => {
                &&& market.phase is WatchingForDump
                &&& p.leg->timestamp <= self.strategy.window_end(p.period_timestamp)
            },
        }
    }

    /// What holds of every state that the bot reaches.
    pub open spec fn valid(self) -> bool {
        &&& self.ledger.total_profit == self.ledger.period_profit
        &&& self.ledger.trades.dom().finite()
        &&& forall|id: Seq<char>| #[trigger]
            self.markets.contains_key(id) ==> self.markets[id].valid(self.strategy)
        &&& self.pending matches Some(p) ==> self.offers(p)
    }
}

/// Taking in a snapshot keeps a market valid.
proof fn lemma_observing_keeps_valid(
    market: MarketView,
    strategy: Strategy,
    snapshot: SnapshotView,
    now: u64,
)
    requires
        market.valid(strategy),
    ensures
        market.observing(snapshot, now).valid(strategy),
{
    let next = market.observing(snapshot, now);
    if snapshot.priced() {
        assert forall|i: int|
            #![trigger next.up_price_history[i]]
            #![trigger next.down_price_history[i]]
            0 <= i < next.up_price_history.len() implies {
            &&& next.up_price_history[i].0 == next.down_price_history[i].0
            &&& next.up_price_history[i].1 > 0
            &&& next.down_price_history[i].1 > 0
        } by {
            let shift: int = if market.up_price_history.len() >= HISTORY_LIMIT { 1 } else { 0 };
            if i + shift < market.up_price_history.len() {
                assert(next.up_price_history[i] == market.up_price_history[i + shift]);
                assert(next.down_price_history[i] == market.down_price_history[i + shift]);
            }
        }
    }
}

/// A snapshot leads from a valid state to a valid one.
pub proof fn lemma_snapshot_keeps_valid(t: TraderView, snapshot: SnapshotView, now: u64)
    requires
        t.valid(),
        t.accepts(snapshot, now),
    ensures
        t.after_snapshot(snapshot, now).valid(),
{
    let market = t.current_market(snapshot, now);
    assert(market.valid(t.strategy));
    lemma_observing_keeps_valid(market, t.strategy, snapshot, now);
}

/// Making the pending purchase leads from a valid state to a valid one.
pub proof fn lemma_purchase_keeps_valid(t: TraderView, p: PurchaseView)
    requires
        t.valid(),
        t.offers(p),
        t.ledger.has_room_for(p),
    ensures
        t.after_purchase(p).valid(),
{
    assert(t.markets[p.condition_id].valid(t.strategy));
}

/// Closing a trade leads from a valid state to a valid one.
pub proof fn lemma_closure_keeps_valid(
    t: TraderView,
    key: (Seq<char>, u64),
    trade: TradeView,
    up_wins: bool,
    down_wins: bool,
)
    requires
        t.valid(),
    ensures
        t.after_closure(key, trade, up_wins, down_wins).valid(),
{
    let next = t.after_closure(key, trade, up_wins, down_wins);
    assert forall|id: Seq<char>| #[trigger] next.markets.contains_key(id) implies next.markets[id].valid(
        t.strategy,
    ) by {
        assert(t.markets.contains_key(id));
        assert(t.markets[id].valid(t.strategy));
        assert(next.markets[id].up_price_history == t.markets[id].up_price_history);
        assert(next.markets[id].down_price_history == t.markets[id].down_price_history);
    }
}

} // verus!
