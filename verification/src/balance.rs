//! The profit total is made up of what closed trades brought and what open ones
//! promise.

use vstd::prelude::*;

use crate::laws::{law_reached_states_are_valid, Event};
use crate::ledger::{completes, LedgerView, TradeView};
use crate::market::PurchaseView;
use crate::model::TraderView;

verus! {

/// The expected profit of all trades together.
pub open spec fn expected_of(trades: Map<(Seq<char>, u64), TradeView>) -> int
    decreases trades.dom().len(),
    when trades.dom().finite()
{
    if trades.dom().len() == 0 {
        0
    } else {
        let key = trades.dom().choose();
        trades[key].expected_profit + expected_of(trades.remove(key))
    }
}

proof fn lemma_expected_without(trades: Map<(Seq<char>, u64), TradeView>, key: (Seq<char>, u64))
    requires
        trades.dom().finite(),
        trades.contains_key(key),
    ensures
        expected_of(trades) == trades[key].expected_profit + expected_of(trades.remove(key)),
    decreases trades.dom().len(),
{
    let chosen = trades.dom().choose();
    assert(trades.dom().contains(chosen));
    if chosen != key {
        lemma_expected_without(trades.remove(chosen), key);
        lemma_expected_without(trades.remove(key), chosen);
        assert(trades.remove(chosen).remove(key) =~= trades.remove(key).remove(chosen));
    }
}

proof fn lemma_expected_with(
    trades: Map<(Seq<char>, u64), TradeView>,
    key: (Seq<char>, u64),
    trade: TradeView,
)
    requires
        trades.dom().finite(),
    ensures
        expected_of(trades.insert(key, trade)) == expected_of(trades.remove(key))
            + trade.expected_profit,
{
    lemma_expected_without(trades.insert(key, trade), key);
    assert(trades.insert(key, trade).remove(key) =~= trades.remove(key));
}

impl LedgerView {
    /// The part of the total that does not hang on open trades.
    pub open spec fn settled(self) -> int {
        self.total_profit - expected_of(self.trades)
    }
}

/// A purchase leaves the settled part of the total alone: a first leg books no
/// profit, and the second books what the open trade then promises. The trade must
/// not hold the promise of an earlier cycle already.
pub proof fn law_purchases_settle_nothing(ledger: LedgerView, p: PurchaseView)
    requires
        ledger.trades.dom().finite(),
        completes(p.leg) is Some ==> ledger.trade(
            (p.condition_id, p.period_timestamp),
        ).expected_profit == 0,
    ensures
        ledger.after_purchase(p).settled() == ledger.settled(),
{
    let key = (p.condition_id, p.period_timestamp);
    lemma_expected_with(ledger.trades, key, ledger.after_purchase(p).trades[key]);
    assert(ledger.after_purchase(p).trades =~= ledger.trades.insert(
        key,
        ledger.after_purchase(p).trades[key],
    ));
    if ledger.trades.contains_key(key) {
        lemma_expected_without(ledger.trades, key);
    } else {
        assert(ledger.trades.remove(key) =~= ledger.trades);
    }
}

/// Closing an open trade adds what it realized to the settled part of the total.
pub proof fn law_closing_settles_what_was_realized(
    ledger: LedgerView,
    key: (Seq<char>, u64),
    up_wins: bool,
    down_wins: bool,
)
    requires
        ledger.trades.dom().finite(),
        ledger.trades.contains_key(key),
    ensures
        ({
            let trade = ledger.trades[key];
            ledger.after_closure(key, trade, up_wins, down_wins).settled() == ledger.settled()
                + trade.realized(up_wins, down_wins)
        }),
{
    lemma_expected_without(ledger.trades, key);
}

impl TraderView {
    /// Whether an event keeps the books in order: no second cycle is booked on a
    /// trade, and what is closed is an open trade as it stands.
    pub open spec fn in_order(self, event: Event) -> bool {
        match event {
            Event::Placed => {
                let p = self.pending->0;
                completes(p.leg) is Some ==> self.ledger.trade(
                    (p.condition_id, p.period_timestamp),
                ).expected_profit == 0
            },
            Event::Closed { key, trade, up_wins, down_wins } => {
                &&& self.ledger.trades.contains_key(key)
                &&& self.ledger.trades[key] == trade
            },
            _ => true,
        }
    }

    /// Whether all events of a sequence keep the books in order.
    pub open spec fn all_in_order(self, events: Seq<Event>) -> bool
        decreases events.len(),
    {
        events.len() == 0 || {
            &&& self.all_in_order(events.drop_last())
            &&& self.after_all(events.drop_last()).in_order(events.last())
        }
    }
}

/// What the trades that are closed in a sequence of events realize.
pub open spec fn realized_in(events: Seq<Event>) -> int
    decreases events.len(),
{
    if events.len() == 0 {
        0
    } else {
        realized_in(events.drop_last()) + match events.last() {
            Event::Closed { key, trade, up_wins, down_wins } => trade.realized(up_wins, down_wins),
            _ => 0,
        }
    }
}

/// The books balance: over any sequence of events, the total changes by what the
/// closed trades realized and by the change of what the open trades promise.
pub proof fn law_the_books_balance(t: TraderView, events: Seq<Event>)
    requires
        t.valid(),
        t.admits_all(events),
        t.all_in_order(events),
    ensures
        t.after_all(events).ledger.settled() == t.ledger.settled() + realized_in(events),
    decreases events.len(),
{
    if events.len() > 0 {
        let earlier = events.drop_last();
        let before = t.after_all(earlier);
        law_the_books_balance(t, earlier);
        law_reached_states_are_valid(t, earlier);
        match events.last() {
            Event::Placed => {
                law_purchases_settle_nothing(before.ledger, before.pending->0);
            },
            Event::Closed { key, trade, up_wins, down_wins } => {
                law_closing_settles_what_was_realized(before.ledger, key, up_wins, down_wins);
            },
            _ => {},
        }
    }
}

} // verus!
