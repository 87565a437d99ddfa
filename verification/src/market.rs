//! What the bot sees of a market, and what it remembers about one.

use std::collections::VecDeque;
use vstd::prelude::*;

use crate::table::Entry;

verus! {

/// One of the two outcomes of a market.
#[derive(Clone, Copy, Debug, PartialEq, Eq, Structural)]
pub enum Side {
    Up,
    Down,
}

impl Side {
    /// The other outcome.
    pub open spec fn other(self) -> Side {
        match self {
            Side::Up => Side::Down,
            Side::Down => Side::Up,
        }
    }

    /// The other outcome.
    pub fn opposite(self) -> (r: Side)
        ensures
            r == self.other(),
    {
        match self {
            Side::Up => Side::Down,
            Side::Down => Side::Up,
        }
    }

    /// The outcome's name, as the exchange writes it.
    pub fn name(self) -> (r: &'static str)
        ensures
            self == Side::Up ==> r@ == "Up"@,
            self == Side::Down ==> r@ == "Down"@,
    {
        match self {
            Side::Up => "Up",
            Side::Down => "Down",
        }
    }
}

/// The quote of one outcome token.
#[derive(Debug)]
pub struct TokenQuote {
    pub token_id: String,
    /// The ask price; `None` where it could not be read.
    pub ask: Option<i64>,
}

/// A token's id and ask price; a price that could not be read counts as zero.
pub struct QuoteView {
    pub token_id: Seq<char>,
    pub ask: i64,
}

impl View for TokenQuote {
    type V = QuoteView;

    open spec fn view(&self) -> QuoteView {
        QuoteView {
            token_id: self.token_id@,
            ask: match self.ask {
                Some(price) => price,
                None => 0,
            },
        }
    }
}

/// The two tokens of a market.
#[derive(Debug)]
pub struct MarketData {
    pub condition_id: String,
    pub up_token: Option<TokenQuote>,
    pub down_token: Option<TokenQuote>,
}

/// One observation of a market.
#[derive(Debug)]
pub struct MarketSnapshot {
    pub market_name: String,
    pub btc_market_15m: MarketData,
    pub btc_15m_period_timestamp: u64,
    pub btc_15m_time_remaining: u64,
}

/// What the strategy reads of a snapshot.
pub struct SnapshotView {
    pub condition_id: Seq<char>,
    pub period_timestamp: u64,
    pub up: Option<QuoteView>,
    pub down: Option<QuoteView>,
}

impl View for MarketSnapshot {
    type V = SnapshotView;

    open spec fn view(&self) -> SnapshotView {
        SnapshotView {
            condition_id: self.btc_market_15m.condition_id@,
            period_timestamp: self.btc_15m_period_timestamp,
            up: match self.btc_market_15m.up_token {
                Some(token) => Some(token@),
                None => None,
            },
            down: match self.btc_market_15m.down_token {
                Some(token) => Some(token@),
                None => None,
            },
        }
    }
}

/// The ask price of a quote that may be missing, zero where it is.
pub open spec fn ask_of(quote: Option<QuoteView>) -> i64 {
    match quote {
        Some(token) => token.ask,
        None => 0,
    }
}

impl SnapshotView {
    /// The ask price of one outcome, zero where there is none.
    pub open spec fn ask(self, side: Side) -> i64 {
        match side {
            Side::Up => ask_of(self.up),
            Side::Down => ask_of(self.down),
        }
    }

    /// Whether both outcomes have a positive ask price.
    pub open spec fn priced(self) -> bool {
        self.ask(Side::Up) > 0 && self.ask(Side::Down) > 0
    }
}

/// Reads the ask price of a quote that may be missing.
pub fn ask_price(token: &Option<TokenQuote>) -> (r: i64)
    ensures
        r == ask_of(
            match *token {
                Some(quote) => Some(quote@),
                None => None,
            },
        ),
{
    match token {
        Some(quote) => match quote.ask {
            Some(price) => price,
            None => 0,
        },
        None => 0,
    }
}

/// The first purchase of a cycle.
#[derive(Clone, Copy, Debug, PartialEq, Eq, Structural)]
pub struct FirstLeg {
    pub side: Side,
    pub entry_price: i64,
    pub shares: i64,
}

/// Both purchases of a finished cycle.
#[derive(Clone, Copy, Debug, PartialEq, Eq, Structural)]
pub struct CompletedCycle {
    pub leg1: FirstLeg,
    pub leg2_side: Side,
    pub leg2_entry_price: i64,
    pub leg2_shares: i64,
    pub total_cost: i128,
}

/// Where a market's cycle stands.
#[derive(Debug)]
pub enum TradingPhase {
    /// Waiting for a dump.
    WatchingForDump { round_start_time: u64, window_end_time: u64 },
    /// Leg 1 bought, waiting for a chance to hedge.
    WaitingForHedge { leg1: FirstLeg, leg1_token_id: String, leg1_timestamp: u64 },
    /// Nothing more to do this round. `None` where no purchase was made.
    CycleComplete { cycle: Option<CompletedCycle> },
}

/// Where a market's cycle stands.
pub enum PhaseView {
    WatchingForDump { round_start_time: u64, window_end_time: u64 },
    WaitingForHedge { leg1: FirstLeg, leg1_token_id: Seq<char>, leg1_timestamp: u64 },
    CycleComplete { cycle: Option<CompletedCycle> },
}

impl View for TradingPhase {
    type V = PhaseView;

    open spec fn view(&self) -> PhaseView {
        match *self {
            TradingPhase::WatchingForDump { round_start_time, window_end_time } => {
                PhaseView::WatchingForDump { round_start_time, window_end_time }
            },
            TradingPhase::WaitingForHedge { leg1, leg1_token_id, leg1_timestamp } => {
                PhaseView::WaitingForHedge { leg1, leg1_token_id: leg1_token_id@, leg1_timestamp }
            },
            TradingPhase::CycleComplete { cycle } => PhaseView::CycleComplete { cycle },
        }
    }
}

/// What the bot remembers about one market.
#[derive(Debug)]
pub struct MarketState {
    pub condition_id: String,
    pub period_timestamp: u64,
    pub up_token_id: Option<String>,
    pub down_token_id: Option<String>,
    pub up_price_history: VecDeque<(u64, i64)>,
    pub down_price_history: VecDeque<(u64, i64)>,
    pub phase: TradingPhase,
    pub closure_checked: bool,
}

/// What the bot remembers about one market, apart from the market's id.
pub struct MarketView {
    pub period_timestamp: u64,
    pub up_token_id: Option<Seq<char>>,
    pub down_token_id: Option<Seq<char>>,
    pub up_price_history: Seq<(u64, i64)>,
    pub down_price_history: Seq<(u64, i64)>,
    pub phase: PhaseView,
    pub closure_checked: bool,
}

/// The characters of a string that may be missing.
pub open spec fn text_of(text: Option<String>) -> Option<Seq<char>> {
    match text {
        Some(s) => Some(s@),
        None => None,
    }
}

impl View for MarketState {
    type V = MarketView;

    open spec fn view(&self) -> MarketView {
        MarketView {
            period_timestamp: self.period_timestamp,
            up_token_id: text_of(self.up_token_id),
            down_token_id: text_of(self.down_token_id),
            up_price_history: self.up_price_history@,
            down_price_history: self.down_price_history@,
            phase: self.phase@,
            closure_checked: self.closure_checked,
        }
    }
}

impl Entry for MarketState {
    type Key = String;

    open spec fn key(&self) -> Seq<char> {
        self.condition_id@
    }

    fn has_key(&self, key: &String) -> (r: bool) {
        self.condition_id == *key
    }
}

/// What a purchase is for.
#[derive(Clone, Copy, Debug, PartialEq, Eq, Structural)]
pub enum Leg {
    /// The side that was dumped, bought at the given time.
    First { timestamp: u64 },
    /// The opposite side, at a pair price within the target.
    Hedge { leg1: FirstLeg },
    /// The opposite side at any price, after waiting too long.
    StopLoss { leg1: FirstLeg },
}

/// One purchase that the strategy asks for.
#[derive(Debug)]
pub struct Purchase {
    pub condition_id: String,
    pub period_timestamp: u64,
    pub side: Side,
    pub token_id: String,
    pub shares: i64,
    pub price: i64,
    pub leg: Leg,
}

/// One purchase that the strategy asks for.
pub struct PurchaseView {
    pub condition_id: Seq<char>,
    pub period_timestamp: u64,
    pub side: Side,
    pub token_id: Seq<char>,
    pub shares: i64,
    pub price: i64,
    pub leg: Leg,
}

impl View for Purchase {
    type V = PurchaseView;

    open spec fn view(&self) -> PurchaseView {
        PurchaseView {
            condition_id: self.condition_id@,
            period_timestamp: self.period_timestamp,
            side: self.side,
            token_id: self.token_id@,
            shares: self.shares,
            price: self.price,
            leg: self.leg,
        }
    }
}

/// The two outcomes are each other's opposites.
pub proof fn law_each_side_has_an_opposite(side: Side)
    ensures
        side.other() != side,
        side.other().other() == side,
        side == Side::Up || side == Side::Down,
{
}

/// A snapshot is viewed as it was taken: its market, its round, and of each side whether
/// it is quoted, by which token and at what price. A price that could not be read counts
/// as zero.
pub proof fn law_snapshots_are_viewed_as_taken(snapshot: MarketSnapshot, quote: TokenQuote)
    ensures
        snapshot@.condition_id == snapshot.btc_market_15m.condition_id@,
        snapshot@.period_timestamp == snapshot.btc_15m_period_timestamp,
        snapshot@.up is Some <==> snapshot.btc_market_15m.up_token is Some,
        snapshot@.up is Some ==> snapshot@.up->0 == snapshot.btc_market_15m.up_token->0@,
        snapshot@.down is Some <==> snapshot.btc_market_15m.down_token is Some,
        snapshot@.down is Some ==> snapshot@.down->0 == snapshot.btc_market_15m.down_token->0@,
        quote@.token_id == quote.token_id@,
        quote.ask is Some ==> quote@.ask == quote.ask->0,
        quote.ask is None ==> quote@.ask == 0,
{
}

/// The ask price of a side is that of its own quote, zero where there is none; a snapshot
/// is priced where both are positive.
pub proof fn law_each_side_has_its_own_price(snapshot: SnapshotView)
    ensures
        snapshot.up is Some ==> snapshot.ask(Side::Up) == snapshot.up->0.ask,
        snapshot.up is None ==> snapshot.ask(Side::Up) == 0,
        snapshot.down is Some ==> snapshot.ask(Side::Down) == snapshot.down->0.ask,
        snapshot.down is None ==> snapshot.ask(Side::Down) == 0,
        snapshot.priced() <==> snapshot.up is Some && snapshot.up->0.ask > 0 && snapshot.down
            is Some && snapshot.down->0.ask > 0,
{
}

/// A purchase is viewed as it was decided.
pub proof fn law_purchases_are_viewed_as_decided(p: Purchase)
    ensures
        p@.condition_id == p.condition_id@,
        p@.period_timestamp == p.period_timestamp,
        p@.side == p.side,
        p@.token_id == p.token_id@,
        p@.shares == p.shares,
        p@.price == p.price,
        p@.leg == p.leg,
{
}

/// A market is viewed as it is remembered, and found by its id.
pub proof fn law_markets_are_viewed_as_remembered(market: MarketState)
    ensures
        market.key() == market.condition_id@,
        market@.period_timestamp == market.period_timestamp,
        market@.up_price_history == market.up_price_history@,
        market@.down_price_history == market.down_price_history@,
        market@.closure_checked == market.closure_checked,
        market@.up_token_id is Some <==> market.up_token_id is Some,
        market.up_token_id is Some ==> market@.up_token_id->0 == market.up_token_id->0@,
        market@.down_token_id is Some <==> market.down_token_id is Some,
        market.down_token_id is Some ==> market@.down_token_id->0 == market.down_token_id->0@,
        market@.phase == match market.phase {
            TradingPhase::WatchingForDump { round_start_time, window_end_time } => {
                PhaseView::WatchingForDump { round_start_time, window_end_time }
            },
            TradingPhase::WaitingForHedge { leg1, leg1_token_id, leg1_timestamp } => {
                PhaseView::WaitingForHedge { leg1, leg1_token_id: leg1_token_id@, leg1_timestamp }
            },
            TradingPhase::CycleComplete { cycle } => PhaseView::CycleComplete { cycle },
        },
{
}

} // verus!
