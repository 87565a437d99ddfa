//! A closure check of all open trades, one after the other.

use vstd::prelude::*;

use crate::closure::{redemptions_of, wins, RedemptionView, ResolvedMarket};
use crate::ledger::CycleTrade;
use crate::model::TraderView;
use crate::table::{lists, Entry};

verus! {

/// One closure check: the clock, and what the exchange answers about each market,
/// `None` where it cannot be asked.
pub struct ClosureCheck {
    pub now: u64,
    pub answer: spec_fn(Seq<char>) -> Option<ResolvedMarket>,
}

impl ClosureCheck {
    /// The answer about a trade's market.
    pub open spec fn market(self, trade: CycleTrade) -> ResolvedMarket {
        (self.answer)(trade.key().0)->0
    }

    /// Whether the exchange reports the trade's market as closed.
    pub open spec fn closed(self, trade: CycleTrade) -> bool {
        (self.answer)(trade.key().0) is Some && self.market(trade).closed
    }

    /// Whether the trade's Up token is among the winners.
    pub open spec fn up_wins(self, trade: CycleTrade) -> bool {
        wins(self.market(trade).tokens@, trade@.up.token_id)
    }

    /// Whether the trade's Down token is among the winners.
    pub open spec fn down_wins(self, trade: CycleTrade) -> bool {
        wins(self.market(trade).tokens@, trade@.down.token_id)
    }
}

impl TraderView {
    /// Whether a check is to settle a trade: its round is over, its market is not
    /// done with, and the exchange reports it as closed.
    pub open spec fn is_due(self, check: ClosureCheck, trade: CycleTrade) -> bool {
        self.closure_step(trade.key(), check.now) is Query && check.closed(trade)
    }

    /// Whether the result of a trade can be booked.
    pub open spec fn fits(self, check: ClosureCheck, trade: CycleTrade) -> bool {
        self.ledger.has_room_to_close(trade@, check.up_wins(trade), check.down_wins(trade))
    }

    /// The state after a check of one trade.
    pub open spec fn after_check(self, check: ClosureCheck, trade: CycleTrade) -> TraderView {
        if self.is_due(check, trade) && self.fits(check, trade) {
            self.after_closure(trade.key(), trade@, check.up_wins(trade), check.down_wins(trade))
        } else {
            self
        }
    }

    /// What a check of one trade redeems.
    pub open spec fn redeemed(self, check: ClosureCheck, trade: CycleTrade) -> Seq<RedemptionView> {
        if self.is_due(check, trade) {
            redemptions_of(
                self.simulation_mode,
                trade.key().0,
                trade@,
                check.up_wins(trade),
                check.down_wins(trade),
            )
        } else {
            Seq::empty()
        }
    }

    /// The state after a check of some trades, one after the other.
    pub open spec fn after_pass(self, check: ClosureCheck, trades: Seq<CycleTrade>) -> TraderView
        decreases trades.len(),
    {
        if trades.len() == 0 {
            self
        } else {
            self.after_pass(check, trades.drop_last()).after_check(check, trades.last())
        }
    }

    /// What a check of some trades redeems in all.
    pub open spec fn redeemed_in_pass(self, check: ClosureCheck, trades: Seq<CycleTrade>) -> Seq<
        RedemptionView,
    >
        decreases trades.len(),
    {
        if trades.len() == 0 {
            Seq::empty()
        } else {
            self.redeemed_in_pass(check, trades.drop_last()) + self.after_pass(
                check,
                trades.drop_last(),
            ).redeemed(check, trades.last())
        }
    }

    /// Whether every result that a check comes to can be booked.
    pub open spec fn pass_fits(self, check: ClosureCheck, trades: Seq<CycleTrade>) -> bool
        decreases trades.len(),
    {
        trades.len() == 0 || {
            let before = self.after_pass(check, trades.drop_last());
            &&& self.pass_fits(check, trades.drop_last())
            &&& before.is_due(check, trades.last()) ==> before.fits(check, trades.last())
        }
    }
}

/// After a check, no trade that is still open is due.
proof fn lemma_pass_leaves_nothing_due(
    t: TraderView,
    check: ClosureCheck,
    trades: Seq<CycleTrade>,
)
    requires
        t.pass_fits(check, trades),
    ensures
        ({
            let after = t.after_pass(check, trades);
            &&& forall|key: (Seq<char>, u64)| #[trigger]
                after.ledger.trades.contains_key(key) ==> t.ledger.trades.contains_key(key)
            &&& forall|i: int|
                0 <= i < trades.len() && after.ledger.trades.contains_key(
                    (#[trigger] trades[i]).key(),
                ) ==> !after.is_due(check, trades[i])
        }),
    decreases trades.len(),
{
    if trades.len() > 0 {
        let earlier = trades.drop_last();
        lemma_pass_leaves_nothing_due(t, check, earlier);
        let before = t.after_pass(check, earlier);
        let after = t.after_pass(check, trades);
        let last = trades.last();
        assert forall|i: int|
            0 <= i < trades.len() && after.ledger.trades.contains_key(
                (#[trigger] trades[i]).key(),
            ) implies !after.is_due(check, trades[i]) by {
            if i < earlier.len() {
                assert(trades[i] == earlier[i]);
                assert(before.ledger.trades.contains_key(earlier[i].key()));
            }
        }
    }
}

/// A check in which no trade is due changes and redeems nothing.
proof fn lemma_nothing_due_nothing_done(
    t: TraderView,
    check: ClosureCheck,
    trades: Seq<CycleTrade>,
)
    requires
        forall|i: int| 0 <= i < trades.len() ==> !t.is_due(check, #[trigger] trades[i]),
    ensures
        t.after_pass(check, trades) == t,
        t.redeemed_in_pass(check, trades) == Seq::<RedemptionView>::empty(),
    decreases trades.len(),
{
    if trades.len() > 0 {
        let earlier = trades.drop_last();
        assert forall|i: int| 0 <= i < earlier.len() implies !t.is_due(
            check,
            #[trigger] earlier[i],
        ) by {
            assert(earlier[i] == trades[i]);
        }
        lemma_nothing_due_nothing_done(t, check, earlier);
        assert(!t.is_due(check, trades[trades.len() - 1]));
    }
}

/// A closure check of all open trades that is repeated at the same time, with the
/// same answers, changes nothing and redeems nothing: no trade is counted or redeemed
/// twice. The results of the first check must be of machine size.
pub proof fn law_a_repeated_check_changes_nothing(
    t: TraderView,
    check: ClosureCheck,
    trades: Seq<CycleTrade>,
    remaining: Seq<CycleTrade>,
)
    requires
        lists(trades, t.ledger.trades),
        lists(remaining, t.after_pass(check, trades).ledger.trades),
        t.pass_fits(check, trades),
    ensures
        ({
            let after = t.after_pass(check, trades);
            &&& after.after_pass(check, remaining) == after
            &&& after.redeemed_in_pass(check, remaining) == Seq::<RedemptionView>::empty()
        }),
{
    let after = t.after_pass(check, trades);
    lemma_pass_leaves_nothing_due(t, check, trades);
    assert forall|i: int| 0 <= i < remaining.len() implies !after.is_due(
        check,
        #[trigger] remaining[i],
    ) by {
        let key = remaining[i].key();
        assert(after.ledger.trades.contains_key(key));
        assert(t.ledger.trades.contains_key(key));
        let j = choose|j: int| 0 <= j < trades.len() && (#[trigger] trades[j]).key() == key;
        assert(!after.is_due(check, trades[j]));
    }
    lemma_nothing_due_nothing_done(after, check, remaining);
}

} // verus!
