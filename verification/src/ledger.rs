//! What was bought, what it cost, and the profit that follows.

use vstd::prelude::*;

use crate::market::{text_of, FirstLeg, Leg, Purchase, PurchaseView, Side};
use crate::table::{lists, Entry, Table};
use crate::units::ONE;

verus! {

/// Holdings up to a thousandth of a share count as nothing.
pub const DUST: i64 = 1_000_000;

/// Whether a value fits an `i64`.
pub open spec fn fits64(value: int) -> bool {
    i64::MIN <= value <= i64::MAX
}

/// Whether a value fits an `i128`.
pub open spec fn fits128(value: int) -> bool {
    i128::MIN <= value <= i128::MAX
}

/// An amount left the range of its machine integer.
#[derive(Clone, Copy, Debug, PartialEq, Eq, Structural)]
pub struct LedgerOverflow;

/// The product of two amounts, exactly.
pub fn product(a: i64, b: i64) -> (r: i128)
    ensures
        r == a * b,
{
    assert(-0x4000_0000_0000_0000_0000_0000_0000_0000 <= (a as int) * (b as int)
        <= 0x4000_0000_0000_0000_0000_0000_0000_0000) by (nonlinear_arith)
        requires
            i64::MIN <= a <= i64::MAX,
            i64::MIN <= b <= i64::MAX,
    ;
    (a as i128) * (b as i128)
}

/// The shares held of one outcome, and what they cost in all: the average
/// price times the shares.
#[derive(Debug)]
pub struct Position {
    pub token_id: Option<String>,
    pub shares: i64,
    pub cost: i128,
}

/// The shares held of one outcome, and what they cost in all.
pub struct PositionView {
    pub token_id: Option<Seq<char>>,
    pub shares: int,
    pub cost: int,
}

impl View for Position {
    type V = PositionView;

    open spec fn view(&self) -> PositionView {
        PositionView {
            token_id: text_of(self.token_id),
            shares: self.shares as int,
            cost: self.cost as int,
        }
    }
}

impl PositionView {
    /// No shares of no token.
    pub open spec fn empty() -> PositionView {
        PositionView { token_id: None, shares: 0, cost: 0 }
    }

    /// The position after a purchase. The average price is that of all shares
    /// together, or the last price where no positive number is held.
    pub open spec fn bought(self, token_id: Seq<char>, shares: i64, price: i64) -> PositionView {
        let held = self.shares + shares;
        PositionView {
            token_id: Some(token_id),
            shares: held,
            cost: if held > 0 {
                self.cost + shares * price
            } else {
                held * price
            },
        }
    }

    /// Whether the position is of machine size.
    pub open spec fn fits(self) -> bool {
        fits64(self.shares) && fits128(self.cost)
    }

    /// What the position brings once the market is resolved: a dollar for each
    /// share of the winner, less the cost.
    pub open spec fn outcome(self, wins: bool) -> int {
        if self.shares <= DUST {
            0
        } else if wins {
            self.shares * ONE - self.cost
        } else {
            -self.cost
        }
    }
}

impl Position {
    /// No shares of no token.
    pub fn empty() -> (r: Position)
        ensures
            r@ == PositionView::empty(),
    {
        Position { token_id: None, shares: 0, cost: 0 }
    }

    /// Adds a purchase, unless the amounts would not fit.
    pub fn buy(&mut self, token_id: &String, shares: i64, price: i64) -> (r: Result<
        (),
        LedgerOverflow,
    >)
        ensures
            r is Ok <==> old(self)@.bought(token_id@, shares, price).fits(),
            r is Ok ==> final(self)@ == old(self)@.bought(token_id@, shares, price),
            r is Err ==> *final(self) == *old(self),
    {
        match self.shares.checked_add(shares) {
            Some(held) => {
                let cost: Option<i128> = if held > 0 {
                    self.cost.checked_add(product(shares, price))
                } else {
                    Some(product(held, price))
                };
                match cost {
                    Some(total) => {
                        self.token_id = Some(token_id.clone());
                        self.shares = held;
                        self.cost = total;
                        Ok(())
                    },
                    None => Err(LedgerOverflow),
                }
            },
            None => Err(LedgerOverflow),
        }
    }

    /// What the position brings once the market is resolved; `None` where the
    /// amount would not fit.
    pub fn result(&self, wins: bool) -> (r: Option<i128>)
        ensures
            r is Some <==> fits128(self@.outcome(wins)),
            r is Some ==> r->0 == self@.outcome(wins),
    {
        if self.shares <= DUST {
            Some(0)
        } else if wins {
            product(self.shares, ONE).checked_sub(self.cost)
        } else {
            let zero: i128 = 0;
            zero.checked_sub(self.cost)
        }
    }

    /// An equal position.
    pub fn duplicate(&self) -> (r: Position)
        ensures
            r@ == self@,
    {
        Position {
            token_id: match &self.token_id {
                Some(id) => Some(id.clone()),
                None => None,
            },
            shares: self.shares,
            cost: self.cost,
        }
    }
}

/// What a trade is found by: the market and the start of its round.
#[derive(Debug)]
pub struct TradeKey {
    pub condition_id: String,
    pub period_timestamp: u64,
}

impl View for TradeKey {
    type V = (Seq<char>, u64);

    open spec fn view(&self) -> (Seq<char>, u64) {
        (self.condition_id@, self.period_timestamp)
    }
}

/// The purchases of one round of one market.
#[derive(Debug)]
pub struct CycleTrade {
    pub condition_id: String,
    pub period_timestamp: u64,
    pub up: Position,
    pub down: Position,
    pub expected_profit: i128,
}

/// The purchases of one round of one market.
pub struct TradeView {
    pub up: PositionView,
    pub down: PositionView,
    pub expected_profit: int,
}

impl View for CycleTrade {
    type V = TradeView;

    open spec fn view(&self) -> TradeView {
        TradeView { up: self.up@, down: self.down@, expected_profit: self.expected_profit as int }
    }
}

impl Entry for CycleTrade {
    type Key = TradeKey;

    open spec fn key(&self) -> (Seq<char>, u64) {
        (self.condition_id@, self.period_timestamp)
    }

    fn has_key(&self, key: &TradeKey) -> (r: bool) {
        proof {
            let (own, other) = (self.key(), key@);
            assert(own == other <==> own.0 == other.0 && own.1 == other.1);
        }
        self.condition_id == key.condition_id && self.period_timestamp == key.period_timestamp
    }
}

impl TradeView {
    /// A trade without purchases.
    pub open spec fn empty() -> TradeView {
        TradeView { up: PositionView::empty(), down: PositionView::empty(), expected_profit: 0 }
    }

    /// The position in one outcome.
    pub open spec fn position(self, side: Side) -> PositionView {
        match side {
            Side::Up => self.up,
            Side::Down => self.down,
        }
    }

    /// The trade after a purchase of one outcome.
    pub open spec fn bought(
        self,
        side: Side,
        token_id: Seq<char>,
        shares: i64,
        price: i64,
    ) -> TradeView {
        match side {
            Side::Up => TradeView { up: self.up.bought(token_id, shares, price), ..self },
            Side::Down => TradeView { down: self.down.bought(token_id, shares, price), ..self },
        }
    }

    /// The profit of the trade once the market is resolved.
    pub open spec fn realized(self, up_wins: bool, down_wins: bool) -> int {
        self.up.outcome(up_wins) + self.down.outcome(down_wins)
    }
}

impl CycleTrade {
    /// An equal trade.
    pub fn duplicate(&self) -> (r: CycleTrade)
        ensures
            r@ == self@,
            r.key() == self.key(),
    {
        CycleTrade {
            condition_id: self.condition_id.clone(),
            period_timestamp: self.period_timestamp,
            up: self.up.duplicate(),
            down: self.down.duplicate(),
            expected_profit: self.expected_profit,
        }
    }
}

/// The first leg that a purchase completes, where it completes one.
pub open spec fn completes(leg: Leg) -> Option<FirstLeg> {
    match leg {
        Leg::First { timestamp } => None,
        Leg::Hedge { leg1 } => Some(leg1),
        Leg::StopLoss { leg1 } => Some(leg1),
    }
}

/// What both legs of a cycle cost.
pub open spec fn cycle_cost(leg1: FirstLeg, shares: i64, price: i64) -> int {
    leg1.entry_price * leg1.shares + price * shares
}

/// The profit of a cycle, one of whose sides pays a dollar for each share.
pub open spec fn cycle_profit(leg1: FirstLeg, shares: i64, price: i64) -> int {
    shares * ONE - cycle_cost(leg1, shares, price)
}

/// All trades that are still open, and the profit so far.
pub struct LedgerView {
    pub trades: Map<(Seq<char>, u64), TradeView>,
    pub total_profit: int,
    pub period_profit: int,
}

impl LedgerView {
    /// The trade of one round of a market, empty where there is none.
    pub open spec fn trade(self, key: (Seq<char>, u64)) -> TradeView {
        if self.trades.contains_key(key) {
            self.trades[key]
        } else {
            TradeView::empty()
        }
    }

    /// The trade that a purchase leads to.
    pub open spec fn trade_with(self, p: PurchaseView) -> TradeView {
        self.trade((p.condition_id, p.period_timestamp)).bought(
            p.side,
            p.token_id,
            p.shares,
            p.price,
        )
    }

    /// Whether a purchase and the profit that it locks in can be booked.
    pub open spec fn has_room_for(self, p: PurchaseView) -> bool {
        &&& self.trade_with(p).position(p.side).fits()
        &&& match completes(p.leg) {
            Some(leg1) => {
                &&& fits128(cycle_cost(leg1, p.shares, p.price))
                &&& fits128(cycle_profit(leg1, p.shares, p.price))
                &&& fits128(self.total_profit + cycle_profit(leg1, p.shares, p.price))
                &&& fits128(self.period_profit + cycle_profit(leg1, p.shares, p.price))
            },
            None => true,
        }
    }

    /// The ledger after a purchase. One that completes a cycle also books the
    /// cycle's profit.
    pub open spec fn after_purchase(self, p: PurchaseView) -> LedgerView {
        let key = (p.condition_id, p.period_timestamp);
        match completes(p.leg) {
            Some(leg1) => {
                let profit = cycle_profit(leg1, p.shares, p.price);
                LedgerView {
                    trades: self.trades.insert(
                        key,
                        TradeView { expected_profit: profit, ..self.trade_with(p) },
                    ),
                    total_profit: self.total_profit + profit,
                    period_profit: self.period_profit + profit,
                }
            },
            None => LedgerView { trades: self.trades.insert(key, self.trade_with(p)), ..self },
        }
    }

    /// Whether the profit of a resolved trade can be booked.
    pub open spec fn has_room_to_close(
        self,
        trade: TradeView,
        up_wins: bool,
        down_wins: bool,
    ) -> bool {
        let realized = trade.realized(up_wins, down_wins);
        &&& fits128(trade.up.outcome(up_wins))
        &&& fits128(trade.down.outcome(down_wins))
        &&& fits128(realized)
        &&& fits128(realized - trade.expected_profit)
        &&& fits128(self.total_profit + (realized - trade.expected_profit))
        &&& fits128(self.period_profit + (realized - trade.expected_profit))
    }

    /// The ledger after a market is resolved: the realized profit takes the
    /// place of the expected one, and the trade is gone.
    pub open spec fn after_closure(
        self,
        key: (Seq<char>, u64),
        trade: TradeView,
        up_wins: bool,
        down_wins: bool,
    ) -> LedgerView {
        let realized = trade.realized(up_wins, down_wins);
        LedgerView {
            trades: self.trades.remove(key),
            total_profit: self.total_profit - trade.expected_profit + realized,
            period_profit: self.period_profit - trade.expected_profit + realized,
        }
    }
}

/// All trades that are still open, and the profit so far.
pub struct Ledger {
    trades: Table<CycleTrade>,
    total_profit: i128,
    period_profit: i128,
}

impl View for Ledger {
    type V = LedgerView;

    closed spec fn view(&self) -> LedgerView {
        LedgerView {
            trades: self.trades@,
            total_profit: self.total_profit as int,
            period_profit: self.period_profit as int,
        }
    }
}

/// What booking a purchase came to.
#[derive(Clone, Copy, Debug, PartialEq, Eq, Structural)]
pub enum Booked {
    /// The first leg of a cycle, asked for at the given time.
    FirstLeg { timestamp: u64 },
    /// The second leg, with the cost and the expected profit of the cycle.
    Cycle { leg1: FirstLeg, total_cost: i128, expected_profit: i128 },
}

impl Ledger {
    /// The trades form a table.
    pub closed spec fn wf(&self) -> bool {
        self.trades.wf()
    }

    /// A ledger without trades and profit.
    pub fn new() -> (r: Ledger)
        ensures
            r.wf(),
            r@.trades == Map::<(Seq<char>, u64), TradeView>::empty(),
            r@.total_profit == 0,
            r@.period_profit == 0,
    {
        Ledger { trades: Table::new(), total_profit: 0, period_profit: 0 }
    }

    /// The profit since the start.
    pub fn total_profit(&self) -> (r: i128)
        ensures
            r == self@.total_profit,
    {
        self.total_profit
    }

    /// The profit kept for the period. It is booked as the total is, and no operation
    /// clears it.
    pub fn period_profit(&self) -> (r: i128)
        ensures
            r == self@.period_profit,
    {
        self.period_profit
    }

    /// Copies of all open trades.
    pub fn open_trades(&self) -> (r: Vec<CycleTrade>)
        requires
            self.wf(),
        ensures
            lists(r@, self@.trades),
    {
        let records: &Vec<CycleTrade> = self.trades.records();
        let mut r: Vec<CycleTrade> = Vec::new();
        let mut i: usize = 0;
        while i < records.len()
            invariant
                i <= records@.len(),
                r@.len() == i,
                forall|j: int|
                    0 <= j < i ==> (#[trigger] r@[j])@ == records@[j]@ && r@[j].key()
                        == records@[j].key(),
            decreases records@.len() - i,
        {
            r.push(records[i].duplicate());
            i = i + 1;
        }
        proof {
            assert forall|k: (Seq<char>, u64)| #[trigger]
                self@.trades.contains_key(k) implies exists|j: int|
                0 <= j < r@.len() && (#[trigger] r@[j]).key() == k by {
                let j = choose|j: int|
                    0 <= j < records@.len() && (#[trigger] records@[j]).key() == k;
                assert(r@[j].key() == k);
            }
        }
        r
    }

    /// Adds a purchase to the trade of its round, unless the amounts would not
    /// fit. The expected profit is set where one is given.
    fn record_trade(&mut self, p: &Purchase, expected_profit: Option<i128>) -> (r: Result<
        (),
        LedgerOverflow,
    >)
        requires
            old(self).wf(),
        ensures
            final(self).wf(),
            r is Ok <==> old(self)@.trade_with(p@).position(p.side).fits(),
            final(self)@.total_profit == old(self)@.total_profit,
            final(self)@.period_profit == old(self)@.period_profit,
            r is Err ==> final(self)@.trades == old(self)@.trades,
            r is Ok ==> final(self)@.trades == old(self)@.trades.insert(
                (p.condition_id@, p.period_timestamp),
                match expected_profit {
                    Some(profit) => TradeView {
                        expected_profit: profit as int,
                        ..old(self)@.trade_with(p@)
                    },
                    None => old(self)@.trade_with(p@),
                },
            ),
    {
        let key: TradeKey = TradeKey {
            condition_id: p.condition_id.clone(),
            period_timestamp: p.period_timestamp,
        };
        let found: Option<CycleTrade> = self.trades.take(&key);
        let was_open: bool = found.is_some();
        let mut trade: CycleTrade = match found {
            Some(open) => open,
            None => CycleTrade {
                condition_id: p.condition_id.clone(),
                period_timestamp: p.period_timestamp,
                up: Position::empty(),
                down: Position::empty(),
                expected_profit: 0,
            },
        };
        let ghost before = trade@;
        assert(before == old(self)@.trade(key@));
        let bought: Result<(), LedgerOverflow> = match p.side {
            Side::Up => trade.up.buy(&p.token_id, p.shares, p.price),
            Side::Down => trade.down.buy(&p.token_id, p.shares, p.price),
        };
        match bought {
            Ok(()) => {
                if let Some(profit) = expected_profit {
                    trade.expected_profit = profit;
                }
                self.trades.insert(trade);
                proof {
                    assert(old(self)@.trades.remove(key@).insert(key@, trade@)
                        =~= old(self)@.trades.insert(key@, trade@));
                }
                Ok(())
            },
            Err(e) => {
                if was_open {
                    self.trades.insert(trade);
                    assert(self.trades@ =~= old(self)@.trades);
                } else {
                    assert(self.trades@ =~= old(self)@.trades);
                }
                Err(e)
            },
        }
    }

    /// Books a purchase, and the profit of the cycle where it completes one.
    /// Where an amount would not fit, nothing changes.
    pub fn book_purchase(&mut self, p: &Purchase) -> (r: Result<Booked, LedgerOverflow>)
        requires
            old(self).wf(),
        ensures
            final(self).wf(),
            r is Ok <==> old(self)@.has_room_for(p@),
            r is Ok ==> final(self)@ == old(self)@.after_purchase(p@),
            r is Err ==> final(self)@ == old(self)@,
            r is Ok ==> match completes(p.leg) {
                Some(leg1) => {
                    &&& r->Ok_0 is Cycle
                    &&& r->Ok_0->leg1 == leg1
                    &&& r->Ok_0->total_cost == cycle_cost(leg1, p.shares, p.price)
                    &&& r->Ok_0->expected_profit == cycle_profit(leg1, p.shares, p.price)
                },
                None => r->Ok_0 == (Booked::FirstLeg { timestamp: p.leg->timestamp }),
            },
    {
        let leg1: FirstLeg = match p.leg {
            Leg::First { timestamp } => {
                return match self.record_trade(p, None) {
                    Ok(()) => Ok(Booked::FirstLeg { timestamp }),
                    Err(e) => Err(e),
                };
            },
            Leg::Hedge { leg1 } => leg1,
            Leg::StopLoss { leg1 } => leg1,
        };
        let first_cost: i128 = product(leg1.entry_price, leg1.shares);
        let total_cost: i128 = match first_cost.checked_add(product(p.price, p.shares)) {
            Some(sum) => sum,
            None => {
                return Err(LedgerOverflow);
            },
        };
        let expected_profit: i128 = match product(p.shares, ONE).checked_sub(total_cost) {
            Some(difference) => difference,
            None => {
                return Err(LedgerOverflow);
            },
        };
        let total_profit: i128 = match self.total_profit.checked_add(expected_profit) {
            Some(sum) => sum,
            None => {
                return Err(LedgerOverflow);
            },
        };
        let period_profit: i128 = match self.period_profit.checked_add(expected_profit) {
            Some(sum) => sum,
            None => {
                return Err(LedgerOverflow);
            },
        };
        match self.record_trade(p, Some(expected_profit)) {
            Ok(()) => {
                self.total_profit = total_profit;
                self.period_profit = period_profit;
                Ok(Booked::Cycle { leg1, total_cost, expected_profit })
            },
            Err(e) => Err(e),
        }
    }

    /// Books the result of a resolved trade and forgets the trade. Where an
    /// amount would not fit, nothing changes.
    pub fn close_trade(&mut self, trade: &CycleTrade, up_wins: bool, down_wins: bool) -> (r: Result<
        i128,
        LedgerOverflow,
    >)
        requires
            old(self).wf(),
        ensures
            final(self).wf(),
            r is Ok <==> old(self)@.has_room_to_close(trade@, up_wins, down_wins),
            r is Ok ==> r->Ok_0 == trade@.realized(up_wins, down_wins),
            r is Ok ==> final(self)@ == old(self)@.after_closure(
                trade.key(),
                trade@,
                up_wins,
                down_wins,
            ),
            r is Err ==> final(self)@ == old(self)@,
    {
        let up: i128 = match trade.up.result(up_wins) {
            Some(amount) => amount,
            None => {
                return Err(LedgerOverflow);
            },
        };
        let down: i128 = match trade.down.result(down_wins) {
            Some(amount) => amount,
            None => {
                return Err(LedgerOverflow);
            },
        };
        let realized: i128 = match up.checked_add(down) {
            Some(sum) => sum,
            None => {
                return Err(LedgerOverflow);
            },
        };
        let change: i128 = match realized.checked_sub(trade.expected_profit) {
            Some(difference) => difference,
            None => {
                return Err(LedgerOverflow);
            },
        };
        let total_profit: i128 = match self.total_profit.checked_add(change) {
            Some(sum) => sum,
            None => {
                return Err(LedgerOverflow);
            },
        };
        let period_profit: i128 = match self.period_profit.checked_add(change) {
            Some(sum) => sum,
            None => {
                return Err(LedgerOverflow);
            },
        };
        let key: TradeKey = TradeKey {
            condition_id: trade.condition_id.clone(),
            period_timestamp: trade.period_timestamp,
        };
        let _ = self.trades.take(&key);
        self.total_profit = total_profit;
        self.period_profit = period_profit;
        Ok(realized)
    }
}

} // verus!
