//! The rules of the strategy, one by one and in plain terms: what each operation does
//! to each part of the state.

use vstd::prelude::*;

use crate::closure::ClosureStep;
use crate::history::dump_verdict;
use crate::ledger::TradeView;
use crate::market::{Leg, PhaseView, PurchaseView, Side, SnapshotView};
use crate::model::{phase_after, RoundEvent, SnapshotStep, TraderView};

verus! {

/// The snapshots that are processed: those of a round under way, unless the first
/// leg was bought at a later time and waits for a hedge that could be priced, and
/// those of a new round whose watch window ends within the range of times.
pub proof fn law_which_snapshots_are_accepted(t: TraderView, snapshot: SnapshotView, now: u64)
    ensures
        ({
            let id = snapshot.condition_id;
            let known = t.markets.contains_key(id) && t.markets[id].period_timestamp
                == snapshot.period_timestamp;
            let priced = snapshot.up is Some && snapshot.up->0.ask > 0 && snapshot.down is Some
                && snapshot.down->0.ask > 0;
            &&& !known ==> (t.accepts(snapshot, now) <==> snapshot.period_timestamp
                + t.strategy.window_minutes * 60 <= u64::MAX)
            &&& known ==> (t.accepts(snapshot, now) <==> !(priced
                && t.markets[id].phase is WaitingForHedge && t.markets[id].phase->leg1_timestamp
                > now))
        }),
{
}

/// A round that is first seen within its watch window is watched until the window
/// ends, `window_minutes` after the start of the round.
pub proof fn law_a_round_seen_in_its_window_is_watched(
    t: TraderView,
    snapshot: SnapshotView,
    now: u64,
)
    requires
        !t.markets.contains_key(snapshot.condition_id)
            || t.markets[snapshot.condition_id].period_timestamp != snapshot.period_timestamp,
        now <= snapshot.period_timestamp + t.strategy.window_minutes * 60 <= u64::MAX,
    ensures
        ({
            let after = t.after_snapshot(snapshot, now);
            let market = after.markets[snapshot.condition_id];
            &&& after.markets.contains_key(snapshot.condition_id)
            &&& market.phase is WatchingForDump
            &&& market.phase->window_end_time == snapshot.period_timestamp
                + t.strategy.window_minutes * 60
            &&& market.phase->round_start_time == snapshot.period_timestamp
            &&& t.round_event(snapshot, now) == RoundEvent::Started
        }),
{
}

/// A round that is first seen after its watch window is complete without a purchase;
/// the report tells how many whole minutes of it had passed.
pub proof fn law_a_round_seen_late_is_complete(t: TraderView, snapshot: SnapshotView, now: u64)
    requires
        !t.markets.contains_key(snapshot.condition_id)
            || t.markets[snapshot.condition_id].period_timestamp != snapshot.period_timestamp,
        now > snapshot.period_timestamp + t.strategy.window_minutes * 60,
    ensures
        ({
            let market = t.after_snapshot(snapshot, now).markets[snapshot.condition_id];
            let event = t.round_event(snapshot, now);
            &&& market.phase == (PhaseView::CycleComplete { cycle: None })
            &&& event is Missed
            &&& event->minutes_elapsed * 60 <= now - snapshot.period_timestamp
                < event->minutes_elapsed * 60 + 60
        }),
{
}

/// A new round starts with the snapshot's tokens and no price from before, and its market
/// is not done with.
pub proof fn law_a_new_round_starts_afresh(t: TraderView, snapshot: SnapshotView, now: u64)
    requires
        !t.markets.contains_key(snapshot.condition_id)
            || t.markets[snapshot.condition_id].period_timestamp != snapshot.period_timestamp,
    ensures
        ({
            let market = t.after_snapshot(snapshot, now).markets[snapshot.condition_id];
            let priced = snapshot.up is Some && snapshot.up->0.ask > 0 && snapshot.down is Some
                && snapshot.down->0.ask > 0;
            &&& market.period_timestamp == snapshot.period_timestamp
            &&& !market.closure_checked
            &&& market.up_token_id == match snapshot.up {
                Some(quote) => Some(quote.token_id),
                None => None,
            }
            &&& market.down_token_id == match snapshot.down {
                Some(quote) => Some(quote.token_id),
                None => None,
            }
            &&& priced ==> market.up_price_history == seq![(now, snapshot.up->0.ask)]
            &&& priced ==> market.down_price_history == seq![(now, snapshot.down->0.ask)]
            &&& !priced ==> market.up_price_history.len() == 0
            &&& !priced ==> market.down_price_history.len() == 0
        }),
{
    let market = t.after_snapshot(snapshot, now).markets[snapshot.condition_id];
    if snapshot.priced() {
        assert(market.up_price_history =~= seq![(now, snapshot.up->0.ask)]);
        assert(market.down_price_history =~= seq![(now, snapshot.down->0.ask)]);
    }
}

/// A snapshot of a round under way leaves the cycle as it is. It renews the tokens
/// that it quotes, and where both ask prices are positive it adds one sample to each
/// history, of which ten are kept; otherwise it adds none.
pub proof fn law_a_round_under_way_goes_on(t: TraderView, snapshot: SnapshotView, now: u64)
    requires
        t.markets.contains_key(snapshot.condition_id),
        t.markets[snapshot.condition_id].period_timestamp == snapshot.period_timestamp,
    ensures
        ({
            let before = t.markets[snapshot.condition_id];
            let market = t.after_snapshot(snapshot, now).markets[snapshot.condition_id];
            let priced = snapshot.up is Some && snapshot.up->0.ask > 0 && snapshot.down is Some
                && snapshot.down->0.ask > 0;
            &&& t.round_event(snapshot, now) == RoundEvent::Continuing
            &&& market.period_timestamp == before.period_timestamp
            &&& market.phase == before.phase
            &&& market.closure_checked == before.closure_checked
            &&& market.up_token_id == match snapshot.up {
                Some(quote) => Some(quote.token_id),
                None => before.up_token_id,
            }
            &&& market.down_token_id == match snapshot.down {
                Some(quote) => Some(quote.token_id),
                None => before.down_token_id,
            }
            &&& !priced ==> market.up_price_history == before.up_price_history
            &&& !priced ==> market.down_price_history == before.down_price_history
            &&& priced && before.up_price_history.len() < 10 ==> market.up_price_history
                == before.up_price_history + seq![(now, snapshot.up->0.ask)]
            &&& priced && before.down_price_history.len() < 10 ==> market.down_price_history
                == before.down_price_history + seq![(now, snapshot.down->0.ask)]
            &&& priced && before.up_price_history.len() >= 10 ==> market.up_price_history
                == before.up_price_history.skip(1) + seq![(now, snapshot.up->0.ask)]
            &&& priced && before.down_price_history.len() >= 10 ==> market.down_price_history
                == before.down_price_history.skip(1) + seq![(now, snapshot.down->0.ask)]
        }),
{
    let before = t.markets[snapshot.condition_id];
    let market = t.after_snapshot(snapshot, now).markets[snapshot.condition_id];
    if snapshot.priced() {
        let (up, down) = ((now, snapshot.up->0.ask), (now, snapshot.down->0.ask));
        if before.up_price_history.len() < 10 {
            assert(market.up_price_history =~= before.up_price_history + seq![up]);
        } else {
            assert(market.up_price_history =~= before.up_price_history.skip(1) + seq![up]);
        }
        if before.down_price_history.len() < 10 {
            assert(market.down_price_history =~= before.down_price_history + seq![down]);
        } else {
            assert(market.down_price_history =~= before.down_price_history.skip(1) + seq![down]);
        }
    }
}

/// A snapshot changes its own market and the pending purchase, and nothing else.
pub proof fn law_a_snapshot_changes_one_market(
    t: TraderView,
    snapshot: SnapshotView,
    now: u64,
    id: Seq<char>,
)
    ensures
        ({
            let after = t.after_snapshot(snapshot, now);
            &&& after.simulation_mode == t.simulation_mode
            &&& after.strategy == t.strategy
            &&& after.ledger == t.ledger
            &&& after.pending == t.decide(snapshot, now).1
            &&& id != snapshot.condition_id ==> {
                &&& after.markets.contains_key(id) == t.markets.contains_key(id)
                &&& after.markets[id] == t.markets[id]
            }
        }),
{
}

/// Without a positive ask price on both sides nothing is bought, whatever the phase.
pub proof fn law_both_sides_must_be_quoted(t: TraderView, snapshot: SnapshotView, now: u64)
    ensures
        (snapshot.up is Some && snapshot.up->0.ask > 0 && snapshot.down is Some
            && snapshot.down->0.ask > 0) <==> t.decide(snapshot, now).0 != SnapshotStep::NoPrices,
        t.decide(snapshot, now).1 is Some <==> t.decide(snapshot, now).0 == SnapshotStep::Buy,
{
}

/// While a market is watched, up to and including the end of its window, a dump of Up
/// is bought, or else a dump of Down: the set shares at the dumped side's ask price,
/// by its token. Without a dump, or after the window, nothing is bought.
pub proof fn law_a_dump_is_bought(t: TraderView, snapshot: SnapshotView, now: u64)
    requires
        t.after_snapshot(snapshot, now).markets[snapshot.condition_id].phase is WatchingForDump,
        snapshot.up is Some && snapshot.up->0.ask > 0,
        snapshot.down is Some && snapshot.down->0.ask > 0,
    ensures
        ({
            let market = t.after_snapshot(snapshot, now).markets[snapshot.condition_id];
            let threshold = t.strategy.move_threshold;
            let open = now <= market.phase->window_end_time;
            let up = dump_verdict(market.up_price_history, now, threshold) == Some(true);
            let down = dump_verdict(market.down_price_history, now, threshold) == Some(true);
            let (step, purchase) = t.decide(snapshot, now);
            let p = purchase->0;
            &&& purchase is Some <==> open && (up || down)
            &&& purchase is None ==> step == SnapshotStep::Idle
            &&& purchase is Some ==> {
                &&& step == SnapshotStep::Buy
                &&& p.side == Side::Up <==> up
                &&& p.shares == t.strategy.shares
                &&& p.leg == (Leg::First { timestamp: now })
                &&& p.condition_id == snapshot.condition_id
                &&& p.period_timestamp == snapshot.period_timestamp
                &&& p.side == Side::Up ==> p.price == snapshot.up->0.ask && p.token_id
                    == snapshot.up->0.token_id
                &&& p.side == Side::Down ==> p.price == snapshot.down->0.ask && p.token_id
                    == snapshot.down->0.token_id
            }
        }),
{
}

/// While a first leg waits, the opposite side is bought at its ask price: by stop loss
/// once the whole minutes since the first leg reach the longest wait, or else as a
/// hedge where the first leg's price and that ask price come to no more than the
/// target. Otherwise nothing is bought, and the report, due every ten seconds, tells
/// what the pair would cost.
pub proof fn law_a_waiting_leg_is_hedged(t: TraderView, snapshot: SnapshotView, now: u64)
    requires
        t.after_snapshot(snapshot, now).markets[snapshot.condition_id].phase is WaitingForHedge,
        snapshot.up is Some && snapshot.up->0.ask > 0,
        snapshot.down is Some && snapshot.down->0.ask > 0,
        t.accepts(snapshot, now),
    ensures
        ({
            let phase = t.after_snapshot(snapshot, now).markets[snapshot.condition_id].phase;
            let leg1 = phase->leg1;
            let waited = now - phase->leg1_timestamp;
            let opposite = if leg1.side == Side::Up {
                snapshot.down->0
            } else {
                snapshot.up->0
            };
            let late = waited >= t.strategy.stop_loss_max_wait_minutes * 60;
            let cheap = leg1.entry_price + opposite.ask <= t.strategy.sum_target;
            let (step, purchase) = t.decide(snapshot, now);
            let p = purchase->0;
            &&& waited >= 0
            &&& purchase is Some <==> late || cheap
            &&& purchase is Some ==> {
                &&& step == SnapshotStep::Buy
                &&& p.leg == if late {
                    Leg::StopLoss { leg1 }
                } else {
                    Leg::Hedge { leg1 }
                }
                &&& p.side != leg1.side
                &&& p.price == opposite.ask
                &&& p.token_id == opposite.token_id
                &&& p.shares == if late {
                    leg1.shares
                } else {
                    t.strategy.shares
                }
                &&& p.condition_id == snapshot.condition_id
                &&& p.period_timestamp == snapshot.period_timestamp
            }
            &&& purchase is None ==> {
                &&& step is WaitingForHedge
                &&& step->leg1 == leg1
                &&& step->opposite_ask == opposite.ask
                &&& step->total_price == leg1.entry_price + opposite.ask
                &&& step->minutes_waited * 60 <= waited < step->minutes_waited * 60 + 60
                &&& step->report <==> now % 10 == 0
            }
        }),
{
}

/// A complete cycle is left alone.
pub proof fn law_nothing_follows_a_complete_cycle(t: TraderView, snapshot: SnapshotView, now: u64)
    requires
        t.after_snapshot(snapshot, now).markets[snapshot.condition_id].phase is CycleComplete,
    ensures
        t.decide(snapshot, now).1 is None,
        t.decide(snapshot, now).0 == SnapshotStep::Idle || t.decide(snapshot, now).0
            == SnapshotStep::NoPrices,
{
}

/// After a first leg is placed, its market waits for a hedge of exactly what was
/// bought: the side, the price paid, the shares, the token and the time.
pub proof fn law_a_first_leg_is_remembered(t: TraderView, p: PurchaseView)
    requires
        p.leg is First,
    ensures
        ({
            let phase = t.after_purchase(p).markets[p.condition_id].phase;
            &&& phase is WaitingForHedge
            &&& phase->leg1.side == p.side
            &&& phase->leg1.entry_price == p.price
            &&& phase->leg1.shares == p.shares
            &&& phase->leg1_token_id == p.token_id
            &&& phase->leg1_timestamp == p.leg->timestamp
        }),
{
}

/// After a second leg is placed, its market's cycle is complete, with the first leg
/// as it was, the second as it was bought and the cost of both.
pub proof fn law_a_second_leg_completes_the_cycle(t: TraderView, p: PurchaseView)
    requires
        !(p.leg is First),
        t.ledger.has_room_for(p),
    ensures
        ({
            let leg1 = match p.leg {
                Leg::Hedge { leg1 } => leg1,
                Leg::StopLoss { leg1 } => leg1,
                Leg::First { timestamp } => arbitrary(),
            };
            let phase = t.after_purchase(p).markets[p.condition_id].phase;
            &&& phase is CycleComplete
            &&& phase->cycle is Some
            &&& phase->cycle->0.leg1 == leg1
            &&& phase->cycle->0.leg2_side == p.side
            &&& phase->cycle->0.leg2_entry_price == p.price
            &&& phase->cycle->0.leg2_shares == p.shares
            &&& phase->cycle->0.total_cost == leg1.entry_price * leg1.shares + p.price * p.shares
        }),
{
    assert(phase_after(p) is CycleComplete);
}

/// A placed purchase is no longer pending. It moves its market's phase and changes
/// nothing else about any market.
pub proof fn law_a_purchase_changes_one_phase(t: TraderView, p: PurchaseView, id: Seq<char>)
    ensures
        ({
            let after = t.after_purchase(p);
            let before = t.markets[p.condition_id];
            let market = after.markets[p.condition_id];
            &&& after.pending is None
            &&& after.simulation_mode == t.simulation_mode
            &&& after.strategy == t.strategy
            &&& after.ledger == t.ledger.after_purchase(p)
            &&& after.markets.contains_key(p.condition_id)
            &&& market.period_timestamp == before.period_timestamp
            &&& market.up_token_id == before.up_token_id
            &&& market.down_token_id == before.down_token_id
            &&& market.up_price_history == before.up_price_history
            &&& market.down_price_history == before.down_price_history
            &&& market.closure_checked == before.closure_checked
            &&& id != p.condition_id ==> {
                &&& after.markets.contains_key(id) == t.markets.contains_key(id)
                &&& after.markets[id] == t.markets[id]
            }
        }),
{
}

/// A purchase that came to nothing leaves everything else as it was, and a reset
/// forgets the markets and the pending purchase but keeps the books.
pub proof fn law_failures_and_resets_keep_the_books(t: TraderView, id: Seq<char>)
    ensures
        t.without_pending().pending is None,
        t.without_pending().markets == t.markets,
        t.without_pending().ledger == t.ledger,
        t.without_pending().strategy == t.strategy,
        t.without_pending().simulation_mode == t.simulation_mode,
        t.after_reset().pending is None,
        !t.after_reset().markets.contains_key(id),
        t.after_reset().ledger == t.ledger,
        t.after_reset().strategy == t.strategy,
        t.after_reset().simulation_mode == t.simulation_mode,
{
}

/// An open trade is asked about from the end of its round on, fifteen minutes after
/// its start, however late it is, as long as its market is not marked as done.
pub proof fn law_an_unsettled_trade_is_asked_about(
    t: TraderView,
    key: (Seq<char>, u64),
    now: u64,
)
    ensures
        ({
            let step = t.closure_step(key, now);
            let done = t.markets.contains_key(key.0) && t.markets[key.0].closure_checked;
            &&& step == ClosureStep::StillRunning <==> now < key.1 + 900
            &&& step == ClosureStep::AlreadyProcessed <==> now >= key.1 + 900 && done
            &&& step is Query <==> now >= key.1 + 900 && !done
            &&& step is Query ==> {
                &&& step->time_since_close == now - (key.1 + 900)
                &&& step->minutes_since_close * 60 + step->seconds_since_close
                    == step->time_since_close
                &&& step->seconds_since_close < 60
            }
        }),
{
}

/// Settling a trade marks its market as done, where it is tracked, and changes nothing
/// else about any market.
pub proof fn law_a_settled_market_is_marked(
    t: TraderView,
    key: (Seq<char>, u64),
    trade: TradeView,
    up_wins: bool,
    down_wins: bool,
    id: Seq<char>,
)
    ensures
        ({
            let after = t.after_closure(key, trade, up_wins, down_wins);
            let before = t.markets[key.0];
            let market = after.markets[key.0];
            &&& after.pending == t.pending
            &&& after.simulation_mode == t.simulation_mode
            &&& after.strategy == t.strategy
            &&& after.ledger == t.ledger.after_closure(key, trade, up_wins, down_wins)
            &&& after.markets.contains_key(id) == t.markets.contains_key(id)
            &&& id != key.0 ==> after.markets[id] == t.markets[id]
            &&& t.markets.contains_key(key.0) ==> {
                &&& market.closure_checked
                &&& market.phase == before.phase
                &&& market.period_timestamp == before.period_timestamp
                &&& market.up_token_id == before.up_token_id
                &&& market.down_token_id == before.down_token_id
                &&& market.up_price_history == before.up_price_history
                &&& market.down_price_history == before.down_price_history
            }
        }),
{
}

} // verus!
