//! What the strategy promises as a whole.

use vstd::prelude::*;

use crate::closure::{redemptions_of, ClosureStep};
use crate::history::{shows_dump, with_sample, HISTORY_LIMIT};
use crate::ledger::{completes, cycle_profit, LedgerView, PositionView, TradeView, DUST};
use crate::market::{FirstLeg, Leg, MarketView, PhaseView, PurchaseView, Side, SnapshotView};
use crate::model::{
    lemma_closure_keeps_valid, lemma_purchase_keeps_valid, lemma_snapshot_keeps_valid, Strategy,
    TraderView,
};
use crate::schedule::ROUND_SECONDS;
use crate::units::ONE;

verus! {

impl MarketView {
    /// The price history of one outcome.
    pub open spec fn history(self, side: Side) -> Seq<(u64, i64)> {
        match side {
            Side::Up => self.up_price_history,
            Side::Down => self.down_price_history,
        }
    }

    /// How far the cycle of the round has come.
    pub open spec fn progress(self) -> int {
        match self.phase {
            PhaseView::WatchingForDump { round_start_time, window_end_time } => 0,
            PhaseView::WaitingForHedge { leg1, leg1_token_id, leg1_timestamp } => 1,
            PhaseView::CycleComplete { cycle } => 2,
        }
    }
}

/// A first leg is bought only in the watch window of its round, only on the side
/// whose history shows a dump, at that side's ask price and for the set shares.
/// Up goes first where both sides are dumped.
pub proof fn law_first_leg_buys_a_dump_in_the_window(
    t: TraderView,
    snapshot: SnapshotView,
    now: u64,
)
    requires
        t.valid(),
        t.accepts(snapshot, now),
        t.decide(snapshot, now).1 is Some,
        t.decide(snapshot, now).1->0.leg is First,
    ensures
        ({
            let p = t.decide(snapshot, now).1->0;
            let market = t.observed_market(snapshot, now);
            let threshold = t.strategy.move_threshold;
            &&& now <= t.strategy.window_end(snapshot.period_timestamp)
            &&& shows_dump(market.history(p.side), now, threshold)
            &&& p.side == Side::Down ==> !shows_dump(market.history(Side::Up), now, threshold)
            &&& p.price == snapshot.ask(p.side)
            &&& p.shares == t.strategy.shares
            &&& market.progress() == 0
        }),
{
    let market = t.current_market(snapshot, now);
    assert(market.valid(t.strategy));
}

/// In the watch window of a round without a purchase, a dump is always bought.
pub proof fn law_every_dump_in_the_window_is_bought(
    t: TraderView,
    snapshot: SnapshotView,
    now: u64,
)
    requires
        t.valid(),
        t.accepts(snapshot, now),
        snapshot.priced(),
        t.observed_market(snapshot, now).progress() == 0,
        now <= t.strategy.window_end(snapshot.period_timestamp),
        exists|side: Side|
            shows_dump(
                #[trigger] t.observed_market(snapshot, now).history(side),
                now,
                t.strategy.move_threshold,
            ),
    ensures
        t.decide(snapshot, now).1 is Some,
        t.decide(snapshot, now).1->0.leg == (Leg::First { timestamp: now }),
{
    let market = t.current_market(snapshot, now);
    assert(market.valid(t.strategy));
    let side = choose|side: Side|
        shows_dump(
            #[trigger] t.observed_market(snapshot, now).history(side),
            now,
            t.strategy.move_threshold,
        );
    assert(side == Side::Up || side == Side::Down);
}

/// A second leg is bought on the other side, for as many shares as the first,
/// either at a pair price within the target or after the longest wait.
pub proof fn law_second_leg_hedges_the_first(t: TraderView, snapshot: SnapshotView, now: u64)
    requires
        t.valid(),
        t.accepts(snapshot, now),
        t.decide(snapshot, now).1 is Some,
        !(t.decide(snapshot, now).1->0.leg is First),
    ensures
        t.markets.contains_key(snapshot.condition_id),
        t.markets[snapshot.condition_id].phase is WaitingForHedge,
        ({
            let p = t.decide(snapshot, now).1->0;
            let leg1 = t.markets[snapshot.condition_id].phase->leg1;
            let since = t.markets[snapshot.condition_id].phase->leg1_timestamp;
            &&& completes(p.leg) == Some(leg1)
            &&& p.side == leg1.side.other()
            &&& p.shares == leg1.shares
            &&& p.price == snapshot.ask(p.side)
            &&& match p.leg {
                Leg::StopLoss { leg1: _ } => (now - since) / 60
                    >= t.strategy.stop_loss_max_wait_minutes,
                _ => leg1.entry_price + p.price <= t.strategy.sum_target,
            }
        }),
{
    let market = t.current_market(snapshot, now);
    assert(market.valid(t.strategy));
}

/// While a first leg waits, the pair is completed as soon as both sides are
/// quoted and either the wait is too long, whatever the price, or the pair's
/// price is within the target; otherwise nothing is bought.
pub proof fn law_when_a_waiting_leg_is_hedged(t: TraderView, snapshot: SnapshotView, now: u64)
    requires
        t.continues(snapshot),
        t.markets[snapshot.condition_id].phase is WaitingForHedge,
        snapshot.priced(),
    ensures
        ({
            let leg1 = t.markets[snapshot.condition_id].phase->leg1;
            let since = t.markets[snapshot.condition_id].phase->leg1_timestamp;
            let late = (now - since) / 60 >= t.strategy.stop_loss_max_wait_minutes;
            let cheap = leg1.entry_price + snapshot.ask(leg1.side.other())
                <= t.strategy.sum_target;
            let decision = t.decide(snapshot, now).1;
            &&& decision is Some <==> late || cheap
            &&& late ==> decision->0.leg == (Leg::StopLoss { leg1 })
            &&& !late && cheap ==> decision->0.leg == (Leg::Hedge { leg1 })
        }),
{
}

/// A cycle of equal legs earns, per share, what the pair costs less than a
/// dollar. Where the pair's price is within a target below a dollar, a positive
/// number of shares earns a profit, and at least the target's distance to a
/// dollar on each.
pub proof fn law_hedge_within_target_locks_in_a_profit(
    leg1: FirstLeg,
    shares: i64,
    price: i64,
    sum_target: i64,
)
    requires
        leg1.shares == shares,
    ensures
        cycle_profit(leg1, shares, price) == shares * (ONE - (leg1.entry_price + price)),
        shares > 0 && leg1.entry_price + price <= sum_target < ONE ==> {
            &&& cycle_profit(leg1, shares, price) > 0
            &&& cycle_profit(leg1, shares, price) >= shares * (ONE - sum_target)
        },
{
    let e = leg1.entry_price as int;
    let s = shares as int;
    let p = price as int;
    let one = ONE as int;
    let target = sum_target as int;
    assert(s * one - (e * s + p * s) == s * (one - (e + p))) by (nonlinear_arith);
    if s > 0 && e + p <= target < one {
        assert(s * (one - (e + p)) > 0) by (nonlinear_arith)
            requires
                s > 0,
                e + p <= target < one,
        ;
        assert(s * (one - (e + p)) >= s * (one - target)) by (nonlinear_arith)
            requires
                s > 0,
                e + p <= target,
        ;
    }
}

/// Within a round, snapshots leave the cycle where it is.
pub proof fn law_snapshots_do_not_move_a_cycle(t: TraderView, snapshot: SnapshotView, now: u64)
    requires
        t.continues(snapshot),
    ensures
        t.after_snapshot(snapshot, now).markets[snapshot.condition_id].phase
            == t.markets[snapshot.condition_id].phase,
        t.after_snapshot(snapshot, now).ledger == t.ledger,
{
}

/// Each purchase moves its market's cycle on by one step of two, so a round sees
/// at most two purchases; the second is of the other side.
pub proof fn law_purchases_move_a_cycle_on(t: TraderView)
    requires
        t.valid(),
        t.pending is Some,
    ensures
        ({
            let p = t.pending->0;
            let before = t.markets[p.condition_id];
            let after = t.after_purchase(p).markets[p.condition_id];
            &&& after.progress() == before.progress() + 1
            &&& after.progress() <= 2
            &&& after.period_timestamp == before.period_timestamp
            &&& after.progress() == 1 ==> after.phase->leg1.side == p.side
            &&& after.progress() == 2 ==> p.side == before.phase->leg1.side.other()
        }),
{
}

/// Once the cycle of a round is complete, the round is left alone.
pub proof fn law_a_complete_cycle_is_left_alone(t: TraderView, snapshot: SnapshotView, now: u64)
    requires
        t.continues(snapshot),
        t.markets[snapshot.condition_id].phase is CycleComplete,
    ensures
        t.decide(snapshot, now).1 is None,
        t.after_snapshot(snapshot, now).markets[snapshot.condition_id].phase is CycleComplete,
{
}

/// A round that is first seen after its watch window is not traded.
pub proof fn law_a_missed_round_is_not_traded(t: TraderView, snapshot: SnapshotView, now: u64)
    requires
        !t.continues(snapshot),
        now > t.strategy.window_end(snapshot.period_timestamp),
    ensures
        t.decide(snapshot, now).1 is None,
        t.after_snapshot(snapshot, now).markets[snapshot.condition_id].phase
            == (PhaseView::CycleComplete { cycle: None }),
{
}

/// Without two positive ask prices nothing is bought and no price is recorded.
pub proof fn law_no_prices_no_trade(t: TraderView, snapshot: SnapshotView, now: u64)
    requires
        !snapshot.priced(),
    ensures
        t.decide(snapshot, now).1 is None,
        ({
            let before = t.current_market(snapshot, now);
            let after = t.after_snapshot(snapshot, now).markets[snapshot.condition_id];
            &&& after.up_price_history == before.up_price_history
            &&& after.down_price_history == before.down_price_history
            &&& after.phase == before.phase
        }),
{
}

/// A snapshot concerns one market: the others stay as they are, and what is
/// decided does not depend on them.
pub proof fn law_markets_are_independent(
    t: TraderView,
    other: TraderView,
    snapshot: SnapshotView,
    now: u64,
    id: Seq<char>,
)
    requires
        id != snapshot.condition_id,
        other.strategy == t.strategy,
        other.continues(snapshot) == t.continues(snapshot),
        t.continues(snapshot) ==> other.markets[snapshot.condition_id]
            == t.markets[snapshot.condition_id],
    ensures
        t.after_snapshot(snapshot, now).markets.contains_key(id) == t.markets.contains_key(id),
        t.markets.contains_key(id) ==> t.after_snapshot(snapshot, now).markets[id]
            == t.markets[id],
        other.decide(snapshot, now) == t.decide(snapshot, now),
{
}

impl TraderView {
    /// The same state with another mode and another stop-loss percentage.
    pub open spec fn with_mode(self, simulation_mode: bool, stop_loss_percentage: i64) -> TraderView {
        TraderView {
            simulation_mode,
            strategy: Strategy { stop_loss_percentage, ..self.strategy },
            ..self
        }
    }
}

/// Simulation runs the same logic as live trading, and the stop-loss percentage
/// is not used: neither changes what is decided, what can happen, nor how the state
/// goes on.
pub proof fn law_mode_does_not_change_the_logic(
    t: TraderView,
    snapshot: SnapshotView,
    now: u64,
    event: Event,
    simulation_mode: bool,
    stop_loss_percentage: i64,
)
    ensures
        ({
            let u = t.with_mode(simulation_mode, stop_loss_percentage);
            &&& u.decide(snapshot, now) == t.decide(snapshot, now)
            &&& u.admits(event) == t.admits(event)
            &&& u.after(event) == t.after(event).with_mode(simulation_mode, stop_loss_percentage)
        }),
{
    let u = t.with_mode(simulation_mode, stop_loss_percentage);
    assert(u.current_market(snapshot, now) == t.current_market(snapshot, now));
    if let Event::Snapshot { snapshot: other, now: then } = event {
        assert(u.current_market(other, then) == t.current_market(other, then));
    }
}

/// Simulation redeems nothing.
pub proof fn law_simulation_redeems_nothing(
    condition_id: Seq<char>,
    trade: TradeView,
    up_wins: bool,
    down_wins: bool,
)
    ensures
        redemptions_of(true, condition_id, trade, up_wins, down_wins).len() == 0,
{
}

/// A fully hedged cycle is worth the same whichever side wins: the profit that is
/// realized at the close is the one that was booked with the second leg, so the
/// close leaves the totals as they are.
pub proof fn law_a_hedged_cycle_pays_what_was_expected(
    ledger: LedgerView,
    first: PurchaseView,
    second: PurchaseView,
    up_wins: bool,
)
    requires
        ledger.trade((first.condition_id, first.period_timestamp)) == TradeView::empty(),
        first.leg is First,
        completes(second.leg) == Some(
            FirstLeg { side: first.side, entry_price: first.price, shares: first.shares },
        ),
        second.condition_id == first.condition_id,
        second.period_timestamp == first.period_timestamp,
        second.side == first.side.other(),
        second.shares == first.shares,
        first.shares > DUST,
    ensures
        ({
            let key = (first.condition_id, first.period_timestamp);
            let booked = ledger.after_purchase(first).after_purchase(second);
            let trade = booked.trades[key];
            let closed = booked.after_closure(key, trade, up_wins, !up_wins);
            let profit = cycle_profit(completes(second.leg)->0, second.shares, second.price);
            &&& trade.expected_profit == profit
            &&& trade.realized(up_wins, !up_wins) == profit
            &&& booked.total_profit == ledger.total_profit + profit
            &&& closed.total_profit == booked.total_profit
            &&& closed.period_profit == booked.period_profit
            &&& !closed.trades.contains_key(key)
        }),
{
    let key = (first.condition_id, first.period_timestamp);
    let middle = ledger.after_purchase(first);
    let booked = middle.after_purchase(second);
    assert(middle.trade(key) == ledger.trade_with(first));
    let s = first.shares as int;
    let a = first.price as int;
    let b = second.price as int;
    assert(a * s == s * a && b * s == s * b) by (nonlinear_arith);
    assert(booked.trades[key].position(first.side).cost == s * a);
    assert(booked.trades[key].position(second.side).cost == s * b);
}

/// A first leg that is never hedged is settled by the market: it earns a dollar a
/// share less its cost where its side wins, and loses its cost otherwise.
pub proof fn law_an_unhedged_leg_is_settled_by_the_market(
    ledger: LedgerView,
    first: PurchaseView,
    up_wins: bool,
    down_wins: bool,
)
    requires
        ledger.trade((first.condition_id, first.period_timestamp)) == TradeView::empty(),
        first.leg is First,
        first.shares > DUST,
    ensures
        ({
            let key = (first.condition_id, first.period_timestamp);
            let booked = ledger.after_purchase(first);
            let closed = booked.after_closure(key, booked.trades[key], up_wins, down_wins);
            let side_wins = match first.side {
                Side::Up => up_wins,
                Side::Down => down_wins,
            };
            &&& booked.total_profit == ledger.total_profit
            &&& closed.total_profit == ledger.total_profit - first.shares * first.price + (
            if side_wins {
                first.shares * ONE
            } else {
                0
            })
        }),
{
}

/// The average price of a position lies between the prices paid for it.
pub proof fn law_average_price_is_between_the_prices_paid(
    position: PositionView,
    token_id: Seq<char>,
    shares: i64,
    price: i64,
    low: int,
    high: int,
)
    requires
        position.shares >= 0,
        shares > 0,
        low <= price <= high,
        low * position.shares <= position.cost <= high * position.shares,
    ensures
        ({
            let after = position.bought(token_id, shares, price);
            low * after.shares <= after.cost <= high * after.shares
        }),
{
    let held = position.shares;
    let s = shares as int;
    let p = price as int;
    assert(low * (held + s) == low * held + low * s) by (nonlinear_arith);
    assert(high * (held + s) == high * held + high * s) by (nonlinear_arith);
    assert(low * s <= s * p <= high * s) by (nonlinear_arith)
        requires
            s > 0,
            low <= p <= high,
    ;
}

/// The exchange is asked about a trade only once its round of fifteen minutes is
/// over.
pub proof fn law_a_running_round_is_not_closed(t: TraderView, key: (Seq<char>, u64), now: u64)
    ensures
        now < key.1 + ROUND_SECONDS <==> t.closure_step(key, now) == ClosureStep::StillRunning,
{
}

/// A closed trade is gone, and a market that is still tracked is not asked about
/// again.
pub proof fn law_a_trade_is_closed_once(
    t: TraderView,
    key: (Seq<char>, u64),
    trade: TradeView,
    up_wins: bool,
    down_wins: bool,
    now: u64,
)
    ensures
        ({
            let after = t.after_closure(key, trade, up_wins, down_wins);
            &&& !after.ledger.trades.contains_key(key)
            &&& t.markets.contains_key(key.0) ==> !(after.closure_step(key, now) is Query)
        }),
{
}

/// Something that happens to the trader.
pub enum Event {
    /// A market is observed.
    Snapshot { snapshot: SnapshotView, now: u64 },
    /// The order of the pending purchase was placed.
    Placed,
    /// The pending purchase came to nothing.
    Failed,
    /// A trade is settled.
    Closed { key: (Seq<char>, u64), trade: TradeView, up_wins: bool, down_wins: bool },
    /// All markets are forgotten.
    Reset,
}

impl TraderView {
    /// Whether an event can happen in this state.
    pub open spec fn admits(self, event: Event) -> bool {
        match event {
            Event::Snapshot { snapshot, now } => self.accepts(snapshot, now),
            Event::Placed => self.pending is Some && self.ledger.has_room_for(self.pending->0),
            Event::Failed => true,
            Event::Closed { key, trade, up_wins, down_wins } => self.ledger.has_room_to_close(
                trade,
                up_wins,
                down_wins,
            ),
            Event::Reset => true,
        }
    }

    /// The state after an event.
    pub open spec fn after(self, event: Event) -> TraderView {
        match event {
            Event::Snapshot { snapshot, now } => self.after_snapshot(snapshot, now),
            Event::Placed => self.after_purchase(self.pending->0),
            Event::Failed => self.without_pending(),
            Event::Closed { key, trade, up_wins, down_wins } => self.after_closure(
                key,
                trade,
                up_wins,
                down_wins,
            ),
            Event::Reset => self.after_reset(),
        }
    }

    /// The state after a sequence of events.
    pub open spec fn after_all(self, events: Seq<Event>) -> TraderView
        decreases events.len(),
    {
        if events.len() == 0 {
            self
        } else {
            self.after_all(events.drop_last()).after(events.last())
        }
    }

    /// Whether a sequence of events can happen from this state.
    pub open spec fn admits_all(self, events: Seq<Event>) -> bool
        decreases events.len(),
    {
        events.len() == 0 || {
            &&& self.admits_all(events.drop_last())
            &&& self.after_all(events.drop_last()).admits(events.last())
        }
    }

    /// The purchases on one market that a sequence of events makes, in order.
    pub open spec fn purchases(self, events: Seq<Event>, id: Seq<char>) -> Seq<PurchaseView>
        decreases events.len(),
    {
        if events.len() == 0 {
            Seq::empty()
        } else {
            let earlier = self.purchases(events.drop_last(), id);
            let before = self.after_all(events.drop_last());
            if events.last() is Placed && before.pending->0.condition_id == id {
                earlier.push(before.pending->0)
            } else {
                earlier
            }
        }
    }

    /// How far the cycle of a market has come; not at all where it is unknown.
    pub open spec fn progress(self, id: Seq<char>) -> int {
        if self.markets.contains_key(id) {
            self.markets[id].progress()
        } else {
            0
        }
    }
}

/// Whether all snapshots of a market belong to one round, and no market is forgotten
/// meanwhile.
pub open spec fn one_round(events: Seq<Event>, id: Seq<char>, period_timestamp: u64) -> bool {
    forall|i: int|
        0 <= i < events.len() ==> match #[trigger] events[i] {
            Event::Snapshot { snapshot, now } => snapshot.condition_id == id
                ==> snapshot.period_timestamp == period_timestamp,
            Event::Reset => false,
            _ => true,
        }
}

/// Every state that is reached from a valid one is valid.
pub proof fn law_reached_states_are_valid(t: TraderView, events: Seq<Event>)
    requires
        t.valid(),
        t.admits_all(events),
    ensures
        t.after_all(events).valid(),
    decreases events.len(),
{
    if events.len() > 0 {
        law_reached_states_are_valid(t, events.drop_last());
        let before = t.after_all(events.drop_last());
        match events.last() {
            Event::Snapshot { snapshot, now } => {
                lemma_snapshot_keeps_valid(before, snapshot, now);
            },
            Event::Placed => {
                lemma_purchase_keeps_valid(before, before.pending->0);
            },
            Event::Failed | Event::Reset => {},
            Event::Closed { key, trade, up_wins, down_wins } => {
                lemma_closure_keeps_valid(before, key, trade, up_wins, down_wins);
            },
        }
    }
}

/// A shorter run of one round is a run of one round.
proof fn lemma_one_round_earlier(events: Seq<Event>, id: Seq<char>, period_timestamp: u64)
    requires
        events.len() > 0,
        one_round(events, id, period_timestamp),
    ensures
        one_round(events.drop_last(), id, period_timestamp),
        !(events.last() is Reset),
        events.last() matches Event::Snapshot { snapshot, now } ==> snapshot.condition_id == id
            ==> snapshot.period_timestamp == period_timestamp,
{
    let earlier = events.drop_last();
    assert forall|i: int| 0 <= i < earlier.len() implies match #[trigger] earlier[i] {
        Event::Snapshot { snapshot, now } => snapshot.condition_id == id
            ==> snapshot.period_timestamp == period_timestamp,
        Event::Reset => false,
        _ => true,
    } by {
        assert(earlier[i] == events[i]);
    }
    assert(events.last() == events[events.len() - 1]);
}

/// A purchase as the first leg of a cycle.
pub open spec fn leg_of(p: PurchaseView) -> FirstLeg {
    FirstLeg { side: p.side, entry_price: p.price, shares: p.shares }
}

/// Within one round, the purchases of a market tell how far its cycle has come, and
/// the last one is the first leg that waits.
proof fn lemma_purchases_of_a_round(
    t: TraderView,
    events: Seq<Event>,
    id: Seq<char>,
    period_timestamp: u64,
)
    requires
        t.valid(),
        t.admits_all(events),
        one_round(events, id, period_timestamp),
        t.markets.contains_key(id) ==> t.markets[id].period_timestamp == period_timestamp,
    ensures
        ({
            let after = t.after_all(events);
            let made = t.purchases(events, id);
            &&& after.strategy == t.strategy
            &&& after.markets.contains_key(id) ==> after.markets[id].period_timestamp
                == period_timestamp
            &&& made.len() + t.progress(id) <= after.progress(id)
            &&& made.len() == 1 && after.progress(id) == 1 ==> {
                &&& after.markets[id].phase->leg1 == leg_of(made[0])
                &&& after.markets[id].phase->leg1_token_id == made[0].token_id
                &&& made[0].leg == (Leg::First {
                    timestamp: after.markets[id].phase->leg1_timestamp,
                })
            }
            &&& made.len() == 2 ==> {
                &&& made[1].side == made[0].side.other()
                &&& made[1].shares == made[0].shares
                &&& completes(made[1].leg) == Some(leg_of(made[0]))
            }
        }),
    decreases events.len(),
{
    if events.len() > 0 {
        let earlier = events.drop_last();
        lemma_one_round_earlier(events, id, period_timestamp);
        lemma_purchases_of_a_round(t, earlier, id, period_timestamp);
        law_reached_states_are_valid(t, earlier);
        let before = t.after_all(earlier);
        match events.last() {
            Event::Placed => {
                law_purchases_move_a_cycle_on(before);
                assert(before.markets[before.pending->0.condition_id].valid(before.strategy));
            },
            _ => {},
        }
    }
}

/// Within one round the bot makes at most two purchases on a market, whatever
/// snapshots come, orders fail and trades are settled. Only a bot that has forgotten
/// its markets may begin again.
pub proof fn law_at_most_two_purchases_in_a_round(
    t: TraderView,
    events: Seq<Event>,
    id: Seq<char>,
    period_timestamp: u64,
)
    requires
        t.valid(),
        t.admits_all(events),
        one_round(events, id, period_timestamp),
        t.markets.contains_key(id) ==> t.markets[id].period_timestamp == period_timestamp,
    ensures
        t.purchases(events, id).len() <= 2,
{
    lemma_purchases_of_a_round(t, events, id, period_timestamp);
}

/// The two purchases of a round are of opposite sides and of equal size.
pub proof fn law_two_purchases_make_a_pair(
    t: TraderView,
    events: Seq<Event>,
    id: Seq<char>,
    period_timestamp: u64,
)
    requires
        t.valid(),
        t.admits_all(events),
        one_round(events, id, period_timestamp),
        t.markets.contains_key(id) ==> t.markets[id].period_timestamp == period_timestamp,
        t.purchases(events, id).len() == 2,
    ensures
        t.purchases(events, id)[1].side == t.purchases(events, id)[0].side.other(),
        t.purchases(events, id)[1].shares == t.purchases(events, id)[0].shares,
{
    lemma_purchases_of_a_round(t, events, id, period_timestamp);
}

/// A hedge that is pending, and every one that was made, costs no more than the target
/// together with its first leg.
proof fn lemma_hedges_are_within_the_target(t: TraderView, events: Seq<Event>, id: Seq<char>)
    requires
        t.admits_all(events),
        t.pending is None,
    ensures
        ({
            let after = t.after_all(events);
            let made = t.purchases(events, id);
            &&& after.strategy == t.strategy
            &&& after.pending matches Some(p) ==> p.leg matches Leg::Hedge { leg1 }
                ==> leg1.entry_price + p.price <= t.strategy.sum_target
            &&& forall|i: int|
                0 <= i < made.len() ==> ((#[trigger] made[i]).leg matches Leg::Hedge { leg1 }
                    ==> leg1.entry_price + made[i].price <= t.strategy.sum_target)
        }),
    decreases events.len(),
{
    if events.len() > 0 {
        lemma_hedges_are_within_the_target(t, events.drop_last(), id);
    }
}

/// Over a run of one round, a pair is bought as a hedge only where the two prices that were
/// paid come to no more than the target; they are of opposite sides and equal size.
pub proof fn law_a_hedged_pair_costs_no_more_than_the_target(
    t: TraderView,
    events: Seq<Event>,
    id: Seq<char>,
    period_timestamp: u64,
)
    requires
        t.valid(),
        t.pending is None,
        t.admits_all(events),
        one_round(events, id, period_timestamp),
        t.markets.contains_key(id) ==> t.markets[id].period_timestamp == period_timestamp,
        t.purchases(events, id).len() == 2,
        t.purchases(events, id)[1].leg is Hedge,
    ensures
        ({
            let made = t.purchases(events, id);
            &&& made[0].price + made[1].price <= t.strategy.sum_target
            &&& made[0].side != made[1].side
            &&& made[0].shares == made[1].shares
        }),
{
    lemma_purchases_of_a_round(t, events, id, period_timestamp);
    lemma_hedges_are_within_the_target(t, events, id);
    let made = t.purchases(events, id);
    assert(made[1].leg is Hedge);
}

/// Over a run of one round that has seen one purchase, of a first leg that waits, the pair
/// is completed at the first snapshot at which the price paid and the opposite ask price
/// come to no more than the target: whatever the run, the opposite side is then bought.
pub proof fn law_a_pair_within_the_target_is_completed(
    t: TraderView,
    events: Seq<Event>,
    id: Seq<char>,
    snapshot: SnapshotView,
    now: u64,
)
    requires
        t.valid(),
        t.admits_all(events),
        one_round(events, id, snapshot.period_timestamp),
        t.markets.contains_key(id) ==> t.markets[id].period_timestamp
            == snapshot.period_timestamp,
        t.purchases(events, id).len() == 1,
        t.after_all(events).markets[id].phase is WaitingForHedge,
        snapshot.condition_id == id,
        snapshot.up is Some && snapshot.up->0.ask > 0,
        snapshot.down is Some && snapshot.down->0.ask > 0,
        t.after_all(events).accepts(snapshot, now),
        ({
            let first = t.purchases(events, id)[0];
            let opposite = if first.side == Side::Up { snapshot.down->0 } else { snapshot.up->0 };
            first.price + opposite.ask <= t.strategy.sum_target
        }),
    ensures
        ({
            let first = t.purchases(events, id)[0];
            let opposite = if first.side == Side::Up { snapshot.down->0 } else { snapshot.up->0 };
            let decision = t.after_all(events).decide(snapshot, now).1;
            &&& decision is Some
            &&& decision->0.side != first.side
            &&& decision->0.price == opposite.ask
            &&& decision->0.token_id == opposite.token_id
            &&& decision->0.shares == first.shares
        }),
{
    lemma_purchases_of_a_round(t, events, id, snapshot.period_timestamp);
    law_reached_states_are_valid(t, events);
    let after = t.after_all(events);
    if !after.markets.contains_key(id) {
        assert(after.progress(id) == 0);
    }
    assert(after.markets[id].valid(after.strategy));
}

/// The samples that a sequence of events takes of one side of a market: the time and
/// the ask price of each snapshot with two positive ask prices.
pub open spec fn samples(events: Seq<Event>, id: Seq<char>, side: Side) -> Seq<(u64, i64)>
    decreases events.len(),
{
    if events.len() == 0 {
        Seq::empty()
    } else {
        let earlier = samples(events.drop_last(), id, side);
        match events.last() {
            Event::Snapshot { snapshot, now } if snapshot.condition_id == id
                && snapshot.priced() => earlier.push((now, snapshot.ask(side))),
            _ => earlier,
        }
    }
}

/// The last samples of a sequence, as many as a history keeps.
pub open spec fn last_samples(all: Seq<(u64, i64)>) -> Seq<(u64, i64)> {
    if all.len() > HISTORY_LIMIT {
        all.skip(all.len() - HISTORY_LIMIT)
    } else {
        all
    }
}

impl TraderView {
    /// The price history of one side of a market, empty where the market is unknown.
    pub open spec fn history(self, id: Seq<char>, side: Side) -> Seq<(u64, i64)> {
        if self.markets.contains_key(id) {
            self.markets[id].history(side)
        } else {
            Seq::empty()
        }
    }
}

/// Within one round, the history of a side holds the last ten samples that were
/// taken of it, those before the run included.
pub proof fn law_histories_hold_the_last_samples(
    t: TraderView,
    events: Seq<Event>,
    id: Seq<char>,
    period_timestamp: u64,
    side: Side,
)
    requires
        t.valid(),
        t.admits_all(events),
        one_round(events, id, period_timestamp),
        t.markets.contains_key(id) ==> t.markets[id].period_timestamp == period_timestamp,
    ensures
        t.after_all(events).history(id, side) == last_samples(
            t.history(id, side) + samples(events, id, side),
        ),
    decreases events.len(),
{
    let start = t.history(id, side);
    let all = start + samples(events, id, side);
    if events.len() == 0 {
        assert(all =~= start);
        if t.markets.contains_key(id) {
            assert(t.markets[id].valid(t.strategy));
        }
    } else {
        let earlier = events.drop_last();
        lemma_one_round_earlier(events, id, period_timestamp);
        law_histories_hold_the_last_samples(t, earlier, id, period_timestamp, side);
        lemma_purchases_of_a_round(t, earlier, id, period_timestamp);
        law_reached_states_are_valid(t, earlier);
        let before = t.after_all(earlier);
        let known = start + samples(earlier, id, side);
        match events.last() {
            Event::Snapshot { snapshot, now } => {
                if snapshot.condition_id == id && snapshot.priced() {
                    let sample = (now, snapshot.ask(side));
                    assert(all =~= known.push(sample));
                    assert(before.current_market(snapshot, now).history(side)
                        =~= last_samples(known));
                    assert(with_sample(last_samples(known), sample) =~= last_samples(all));
                } else if snapshot.condition_id == id {
                    assert(before.current_market(snapshot, now).history(side)
                        =~= last_samples(known));
                }
            },
            _ => {},
        }
    }
}

} // verus!
