//! The rules of the books, in plain arithmetic. Shares and prices are in billionths,
//! costs and profits in billionths of a billionth.

use vstd::prelude::*;

use crate::ledger::{
    completes, cycle_cost, cycle_profit, CycleTrade, LedgerView, Position, PositionView, TradeView,
};
use crate::market::{FirstLeg, Leg, PurchaseView, Side};
use crate::table::{lists, Entry};

verus! {

/// A purchase adds its shares to the position and their price to its cost, so that the
/// average price is that of all shares bought. Where the shares held are not positive,
/// the average price is the last one paid.
pub proof fn law_a_purchase_adds_to_its_position(
    position: PositionView,
    token_id: Seq<char>,
    shares: i64,
    price: i64,
)
    ensures
        ({
            let after = position.bought(token_id, shares, price);
            &&& after.token_id == Some(token_id)
            &&& after.shares - position.shares == shares
            &&& after.shares > 0 ==> after.cost - position.cost == shares * price
            &&& after.shares <= 0 ==> after.cost == after.shares * price
        }),
{
}

/// Two purchases of a positive number of shares add up, in either order.
pub proof fn law_purchases_add_up_in_any_order(
    position: PositionView,
    token_id: Seq<char>,
    shares: i64,
    price: i64,
    more: i64,
    other_price: i64,
)
    requires
        position.shares >= 0,
        shares > 0,
        more > 0,
    ensures
        position.bought(token_id, shares, price).bought(token_id, more, other_price)
            == position.bought(token_id, more, other_price).bought(token_id, shares, price),
{
}

/// Once a market is resolved, a position of more than a thousandth of a share brings a
/// dollar a share where its side wins, less what it cost; a smaller one brings nothing.
pub proof fn law_what_a_position_brings(position: PositionView, wins: bool)
    ensures
        position.shares <= 1_000_000 ==> position.outcome(wins) == 0,
        position.shares > 1_000_000 && wins ==> position.outcome(wins) + position.cost
            == position.shares * 1_000_000_000,
        position.shares > 1_000_000 && !wins ==> position.outcome(wins) + position.cost == 0,
{
}

/// Winning rather than losing makes a difference of a dollar a share.
pub proof fn law_a_win_is_worth_a_dollar_a_share(trade: TradeView)
    requires
        trade.up.shares > 1_000_000,
        trade.down.shares > 1_000_000,
    ensures
        trade.realized(true, false) - trade.realized(false, false) == trade.up.shares
            * 1_000_000_000,
        trade.realized(false, true) - trade.realized(false, false) == trade.down.shares
            * 1_000_000_000,
        trade.realized(false, false) == -(trade.up.cost + trade.down.cost),
{
}

/// A trade brings what its two positions bring.
pub proof fn law_a_trade_brings_what_its_positions_bring(
    trade: TradeView,
    up_wins: bool,
    down_wins: bool,
)
    ensures
        trade.realized(up_wins, down_wins) == trade.up.outcome(up_wins) + trade.down.outcome(
            down_wins,
        ),
{
}

/// A hedge and a stop loss complete the first leg that they name; a first leg completes
/// none.
pub proof fn law_second_legs_complete_the_first(leg1: FirstLeg, timestamp: u64)
    ensures
        completes(Leg::First { timestamp }) is None,
        completes(Leg::Hedge { leg1 }) == Some(leg1),
        completes(Leg::StopLoss { leg1 }) == Some(leg1),
{
}

/// A cycle costs what both legs cost, and earns a dollar for each share of the second
/// leg less that.
pub proof fn law_what_a_cycle_earns(leg1: FirstLeg, shares: i64, price: i64)
    ensures
        cycle_cost(leg1, shares, price) == leg1.entry_price * leg1.shares + price * shares,
        cycle_profit(leg1, shares, price) + leg1.entry_price * leg1.shares + price * shares
            == shares * 1_000_000_000,
{
}

/// A purchase goes to the trade of its market and round, to the position of its side;
/// the other side and all other trades stay as they are. A trade begins empty.
pub proof fn law_a_purchase_goes_to_its_trade(
    ledger: LedgerView,
    p: PurchaseView,
    other: (Seq<char>, u64),
)
    ensures
        ({
            let key = (p.condition_id, p.period_timestamp);
            let known = ledger.trades.contains_key(key);
            let before = ledger.trades[key];
            let after = ledger.after_purchase(p).trades[key];
            let (old, bought, old_rest, rest) = match p.side {
                Side::Up => (before.up, after.up, before.down, after.down),
                Side::Down => (before.down, after.down, before.up, after.up),
            };
            &&& ledger.after_purchase(p).trades.contains_key(key)
            &&& bought.token_id == Some(p.token_id)
            &&& known ==> {
                &&& bought.shares == old.shares + p.shares
                &&& bought.shares > 0 ==> bought.cost == old.cost + p.shares * p.price
                &&& bought.shares <= 0 ==> bought.cost == bought.shares * p.price
                &&& rest == old_rest
            }
            &&& !known ==> {
                &&& bought.shares == p.shares
                &&& bought.cost == p.shares * p.price
                &&& rest.token_id is None
                &&& rest.shares == 0
                &&& rest.cost == 0
            }
            &&& other != key ==> {
                &&& ledger.after_purchase(p).trades.contains_key(other)
                    == ledger.trades.contains_key(other)
                &&& ledger.after_purchase(p).trades[other] == ledger.trades[other]
            }
        }),
{
}

/// A first leg books no profit. A second leg books a dollar for each of its shares less
/// the price of both legs: in the total, in the period and as what the trade promises.
pub proof fn law_a_second_leg_books_the_profit(ledger: LedgerView, p: PurchaseView)
    ensures
        ({
            let key = (p.condition_id, p.period_timestamp);
            let after = ledger.after_purchase(p);
            let leg1 = match p.leg {
                Leg::Hedge { leg1 } => leg1,
                Leg::StopLoss { leg1 } => leg1,
                Leg::First { timestamp } => arbitrary(),
            };
            let profit = p.shares * 1_000_000_000 - (leg1.entry_price * leg1.shares + p.price
                * p.shares);
            &&& p.leg is First ==> {
                &&& after.total_profit == ledger.total_profit
                &&& after.period_profit == ledger.period_profit
                &&& ledger.trades.contains_key(key) ==> after.trades[key].expected_profit
                    == ledger.trades[key].expected_profit
                &&& !ledger.trades.contains_key(key) ==> after.trades[key].expected_profit == 0
            }
            &&& !(p.leg is First) ==> {
                &&& after.total_profit - ledger.total_profit == profit
                &&& after.period_profit - ledger.period_profit == profit
                &&& after.trades[key].expected_profit == profit
            }
        }),
{
}

/// A purchase is booked whenever the shares held, their cost, and, for a second leg,
/// the cost and profit of the cycle and the totals are of machine size.
pub proof fn law_what_fits_is_booked(ledger: LedgerView, p: PurchaseView)
    ensures
        ({
            let key = (p.condition_id, p.period_timestamp);
            let known = ledger.trades.contains_key(key);
            let old = match p.side {
                Side::Up => ledger.trades[key].up,
                Side::Down => ledger.trades[key].down,
            };
            let held = p.shares + if known { old.shares } else { 0 };
            let cost = if held > 0 {
                p.shares * p.price + if known { old.cost } else { 0 }
            } else {
                held * p.price
            };
            let leg1 = match p.leg {
                Leg::Hedge { leg1 } => leg1,
                Leg::StopLoss { leg1 } => leg1,
                Leg::First { timestamp } => arbitrary(),
            };
            let paid = leg1.entry_price * leg1.shares + p.price * p.shares;
            let profit = p.shares * 1_000_000_000 - paid;
            ledger.has_room_for(p) <==> {
                &&& i64::MIN <= held <= i64::MAX
                &&& i128::MIN <= cost <= i128::MAX
                &&& !(p.leg is First) ==> {
                    &&& i128::MIN <= paid <= i128::MAX
                    &&& i128::MIN <= profit <= i128::MAX
                    &&& i128::MIN <= ledger.total_profit + profit <= i128::MAX
                    &&& i128::MIN <= ledger.period_profit + profit <= i128::MAX
                }
            }
        }),
{
}

/// A position can be held whenever its shares and its cost are of machine size.
pub proof fn law_which_positions_fit(position: PositionView)
    ensures
        position.fits() <==> i64::MIN <= position.shares <= i64::MAX && i128::MIN <= position.cost
            <= i128::MAX,
{
}

/// Closing a trade replaces what it promised by what it brought, in the total and in the
/// period, and forgets the trade and no other.
pub proof fn law_closing_replaces_the_promise(
    ledger: LedgerView,
    key: (Seq<char>, u64),
    trade: TradeView,
    up_wins: bool,
    down_wins: bool,
    other: (Seq<char>, u64),
)
    ensures
        ({
            let after = ledger.after_closure(key, trade, up_wins, down_wins);
            let up = if trade.up.shares <= 1_000_000 {
                0
            } else {
                (if up_wins { trade.up.shares * 1_000_000_000 } else { 0 }) - trade.up.cost
            };
            let down = if trade.down.shares <= 1_000_000 {
                0
            } else {
                (if down_wins { trade.down.shares * 1_000_000_000 } else { 0 }) - trade.down.cost
            };
            &&& after.total_profit - ledger.total_profit == up + down - trade.expected_profit
            &&& after.period_profit - ledger.period_profit == up + down - trade.expected_profit
            &&& !after.trades.contains_key(key)
            &&& other != key ==> {
                &&& after.trades.contains_key(other) == ledger.trades.contains_key(other)
                &&& after.trades[other] == ledger.trades[other]
            }
        }),
{
}

/// A trade is closed whenever what its sides bring, their sum, its distance to the
/// promise and the totals are of machine size.
pub proof fn law_what_fits_is_closed(
    ledger: LedgerView,
    trade: TradeView,
    up_wins: bool,
    down_wins: bool,
)
    ensures
        ({
            let up = if trade.up.shares <= 1_000_000 {
                0
            } else {
                (if up_wins { trade.up.shares * 1_000_000_000 } else { 0 }) - trade.up.cost
            };
            let down = if trade.down.shares <= 1_000_000 {
                0
            } else {
                (if down_wins { trade.down.shares * 1_000_000_000 } else { 0 }) - trade.down.cost
            };
            let change = up + down - trade.expected_profit;
            ledger.has_room_to_close(trade, up_wins, down_wins) <==> {
                &&& i128::MIN <= up <= i128::MAX
                &&& i128::MIN <= down <= i128::MAX
                &&& i128::MIN <= up + down <= i128::MAX
                &&& i128::MIN <= change <= i128::MAX
                &&& i128::MIN <= ledger.total_profit + change <= i128::MAX
                &&& i128::MIN <= ledger.period_profit + change <= i128::MAX
            }
        }),
{
}

/// A list of trades that lists a map holds every key of the map, once, with its value,
/// and nothing else.
pub proof fn law_a_listing_is_complete(
    trades: Seq<CycleTrade>,
    m: Map<(Seq<char>, u64), TradeView>,
    id: Seq<char>,
    period_timestamp: u64,
    i: int,
    j: int,
)
    requires
        lists(trades, m),
    ensures
        m.contains_key((id, period_timestamp)) <==> exists|k: int|
            0 <= k < trades.len() && (#[trigger] trades[k]).condition_id@ == id
                && trades[k].period_timestamp == period_timestamp,
        0 <= i < trades.len() ==> m[(trades[i].condition_id@, trades[i].period_timestamp)]
            == trades[i]@,
        0 <= i < j < trades.len() ==> trades[i].condition_id@ != trades[j].condition_id@
            || trades[i].period_timestamp != trades[j].period_timestamp,
{
    let key = (id, period_timestamp);
    if m.contains_key(key) {
        let k = choose|k: int| 0 <= k < trades.len() && (#[trigger] trades[k]).key() == key;
        assert(trades[k].condition_id@ == id);
    }
    if exists|k: int|
        0 <= k < trades.len() && (#[trigger] trades[k]).condition_id@ == id
            && trades[k].period_timestamp == period_timestamp {
        let k = choose|k: int|
            0 <= k < trades.len() && (#[trigger] trades[k]).condition_id@ == id
                && trades[k].period_timestamp == period_timestamp;
        assert(trades[k].key() == key);
    }
    if 0 <= i < trades.len() {
        assert(trades[i].key() == (trades[i].condition_id@, trades[i].period_timestamp));
    }
    if 0 <= i < j < trades.len() {
        assert(trades[i].key() != trades[j].key());
    }
}

/// A trade is viewed as it is recorded, and found by its market and round.
pub proof fn law_trades_are_viewed_as_recorded(trade: CycleTrade, position: Position)
    ensures
        trade@.up == trade.up@,
        trade@.down == trade.down@,
        trade@.expected_profit == trade.expected_profit,
        trade.key() == (trade.condition_id@, trade.period_timestamp),
        position@.shares == position.shares,
        position@.cost == position.cost,
        position@.token_id is Some <==> position.token_id is Some,
        position.token_id is Some ==> position@.token_id->0 == position.token_id->0@,
{
}

} // verus!
