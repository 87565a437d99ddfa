//! The search for the market of the current round.
//!
//! The search names one market after another by its slug; its caller asks the
//! exchange for it and hands back the answer.

use vstd::prelude::*;
use vstd::string::StringExecFns;

use crate::schedule::{current_period, round_start, ROUND_SECONDS};
use crate::text::{
    decimal, decimal_text, equals_ignoring_case, law_case_is_all_that_is_ignored,
    law_decimal_is_injective, same_letters,
};

verus! {

/// The only length of a round, in minutes, for which there are markets.
pub const MARKET_MINUTES: u64 = 15;

/// How many rounds before the current one are tried.
pub const EARLIER_ROUNDS: u64 = 3;

/// Why a search cannot begin.
#[derive(Clone, Copy, Debug, PartialEq, Eq, Structural)]
pub enum DiscoveryError {
    /// The asset has no such markets.
    UnsupportedAsset,
    /// Rounds of that length are not traded.
    UnsupportedDuration,
}

/// The prefix of the slugs of an asset's markets.
pub open spec fn prefix_of(asset: Seq<char>) -> Option<Seq<char>> {
    if same_letters(asset, "btc"@) {
        Some("btc"@)
    } else if same_letters(asset, "eth"@) {
        Some("eth"@)
    } else if same_letters(asset, "sol"@) {
        Some("sol"@)
    } else if same_letters(asset, "xrp"@) {
        Some("xrp"@)
    } else {
        None
    }
}

/// The slug of the market of the round that starts at `period`.
pub open spec fn slug_of(prefix: Seq<char>, period: u64) -> Seq<char> {
    prefix + "-updown-15m-"@ + decimal(period as nat)
}

/// The prefix of the slugs of an asset's markets, whatever the case of its name.
pub fn slug_prefix(asset: &str) -> (r: Option<&'static str>)
    ensures
        match r {
            Some(prefix) => prefix_of(asset@) == Some(prefix@),
            None => prefix_of(asset@) is None,
        },
{
    if equals_ignoring_case(asset, "btc") {
        Some("btc")
    } else if equals_ignoring_case(asset, "eth") {
        Some("eth")
    } else if equals_ignoring_case(asset, "sol") {
        Some("sol")
    } else if equals_ignoring_case(asset, "xrp") {
        Some("xrp")
    } else {
        None
    }
}

/// The slug of the market of the round that starts at `period`.
pub fn market_slug(prefix: &str, period: u64) -> (r: String)
    ensures
        r@ == slug_of(prefix@, period),
{
    let mut slug: String = String::from_str(prefix);
    slug.append("-updown-15m-");
    let number: String = decimal_text(period);
    slug.append(number.as_str());
    slug
}

/// Different rounds of an asset have different slugs.
pub proof fn law_slugs_tell_rounds_apart(prefix: Seq<char>, a: u64, b: u64)
    requires
        slug_of(prefix, a) == slug_of(prefix, b),
    ensures
        a == b,
{
    let head = prefix + "-updown-15m-"@;
    assert(slug_of(prefix, a).skip(head.len() as int) =~= decimal(a as nat));
    assert(slug_of(prefix, b).skip(head.len() as int) =~= decimal(b as nat));
    law_decimal_is_injective(a as nat, b as nat);
}

/// What a search reads of a market.
#[derive(Debug)]
pub struct MarketListing {
    pub condition_id: String,
    pub active: bool,
    pub closed: bool,
}

/// Whether a text is among some others.
pub open spec fn among(texts: Seq<String>, text: Seq<char>) -> bool {
    exists|i: int| 0 <= i < texts.len() && (#[trigger] texts[i])@ == text
}

/// Whether the exchange's answer is a market to trade: active, not closed, and not
/// seen before.
pub open spec fn tradable(reply: Option<MarketListing>, seen_ids: Seq<String>) -> bool {
    match reply {
        Some(market) => market.active && !market.closed && !among(
            seen_ids,
            market.condition_id@,
        ),
        None => false,
    }
}

fn contains_text(texts: &Vec<String>, text: &String) -> (r: bool)
    ensures
        r == among(texts@, text@),
{
    let mut i: usize = 0;
    while i < texts.len()
        invariant
            i <= texts@.len(),
            forall|j: int| 0 <= j < i ==> (#[trigger] texts@[j])@ != text@,
        decreases texts@.len() - i,
    {
        if texts[i] == *text {
            return true;
        }
        i = i + 1;
    }
    false
}

/// Whether the exchange's answer is a market to trade.
pub fn is_tradable(reply: &Option<MarketListing>, seen_ids: &Vec<String>) -> (r: bool)
    ensures
        r == tradable(*reply, seen_ids@),
{
    match reply {
        Some(market) => market.active && !market.closed && !contains_text(
            seen_ids,
            &market.condition_id,
        ),
        None => false,
    }
}

/// How a search goes on.
#[derive(Clone, Copy, Debug, PartialEq, Eq, Structural)]
pub enum SearchStep {
    /// The market just answered for is the one.
    Found,
    /// Ask for the market of the round before.
    TryPrevious,
    /// There is no market to trade.
    NotFound,
}

/// A search: the asset's prefix, the current round, and how many rounds it has
/// gone back.
pub struct SearchView {
    pub prefix: Seq<char>,
    pub rounded_time: u64,
    pub offset: u64,
}

impl SearchView {
    /// The search for an asset's market at a given time, at its beginning.
    pub open spec fn start(prefix: Seq<char>, now: u64) -> SearchView {
        SearchView { prefix, rounded_time: round_start(now), offset: 0 }
    }

    /// The search, gone back one more round.
    pub open spec fn previous(self) -> SearchView {
        SearchView { offset: (self.offset + 1) as u64, ..self }
    }

    /// The start of the round whose market is asked for.
    pub open spec fn period(self) -> int {
        self.rounded_time - self.offset * ROUND_SECONDS
    }

    /// The slug of the market that is asked for.
    pub open spec fn slug(self) -> Seq<char> {
        slug_of(self.prefix, self.period() as u64)
    }

    /// The round asked for lies in the range of times, and not too far back.
    pub open spec fn valid(self) -> bool {
        self.offset <= EARLIER_ROUNDS && self.period() >= 0
    }

    /// Whether there is a round before the one asked for.
    pub open spec fn has_previous(self) -> bool {
        self.period() >= ROUND_SECONDS
    }

    /// How the search goes on after an answer that is, or is not, a market to trade.
    pub open spec fn step(self, good: bool) -> SearchStep {
        if good {
            SearchStep::Found
        } else if self.offset < EARLIER_ROUNDS {
            SearchStep::TryPrevious
        } else {
            SearchStep::NotFound
        }
    }

    /// How far back the search ends successfully, where `good` tells of each slug
    /// whether the exchange answers it with a market to trade.
    pub open spec fn result(self, good: spec_fn(Seq<char>) -> bool) -> Option<u64>
        decreases EARLIER_ROUNDS - self.offset,
    {
        match self.step(good(self.slug())) {
            SearchStep::Found => Some(self.offset),
            SearchStep::TryPrevious => self.previous().result(good),
            SearchStep::NotFound => None,
        }
    }
}

/// A search for a market.
#[derive(Debug)]
pub struct MarketSearch {
    slug_prefix: String,
    rounded_time: u64,
    offset: u64,
}

impl View for MarketSearch {
    type V = SearchView;

    closed spec fn view(&self) -> SearchView {
        SearchView {
            prefix: self.slug_prefix@,
            rounded_time: self.rounded_time,
            offset: self.offset,
        }
    }
}

/// Begins the search for a market of the given round length.
pub fn discover_market(slug_prefix: &str, market_duration_minutes: u64, current_time: u64) -> (r:
    Result<MarketSearch, DiscoveryError>)
    ensures
        match r {
            Ok(search) => {
                &&& market_duration_minutes == MARKET_MINUTES
                &&& search@ == SearchView::start(slug_prefix@, current_time)
                &&& search@.valid()
            },
            Err(e) => {
                &&& market_duration_minutes != MARKET_MINUTES
                &&& e == DiscoveryError::UnsupportedDuration
            },
        },
{
    if market_duration_minutes != MARKET_MINUTES {
        return Err(DiscoveryError::UnsupportedDuration);
    }
    Ok(
        MarketSearch {
            slug_prefix: String::from_str(slug_prefix),
            rounded_time: current_period(current_time),
            offset: 0,
        },
    )
}

/// Begins the search for an asset's market.
pub fn discover_market_for_asset(asset: &str, current_time: u64) -> (r: Result<
    MarketSearch,
    DiscoveryError,
>)
    ensures
        match r {
            Ok(search) => {
                &&& prefix_of(asset@) is Some
                &&& search@ == SearchView::start(prefix_of(asset@)->0, current_time)
                &&& search@.valid()
            },
            Err(e) => {
                &&& prefix_of(asset@) is None
                &&& e == DiscoveryError::UnsupportedAsset
            },
        },
{
    match slug_prefix(asset) {
        Some(prefix) => discover_market(prefix, MARKET_MINUTES, current_time),
        None => Err(DiscoveryError::UnsupportedAsset),
    }
}

/// Begins the search for the Bitcoin market.
pub fn discover_btc_15m_market(current_time: u64) -> (r: Result<MarketSearch, DiscoveryError>)
    ensures
        r matches Ok(search) && search@ == SearchView::start("btc"@, current_time)
            && search@.valid(),
{
    proof {
        reveal_strlit("BTC");
        reveal_strlit("btc");
    }
    assert(same_letters("BTC"@, "btc"@));
    discover_market_for_asset("BTC", current_time)
}

impl MarketSearch {
    /// The slug of the market to ask for.
    pub fn slug(&self) -> (r: String)
        requires
            self@.valid(),
        ensures
            r@ == self@.slug(),
    {
        market_slug(self.slug_prefix.as_str(), self.rounded_time - self.offset * ROUND_SECONDS)
    }

    /// Whether there is a round before the one asked for.
    pub fn has_previous(&self) -> (r: bool)
        requires
            self@.valid(),
        ensures
            r == self@.has_previous(),
    {
        self.rounded_time - self.offset * ROUND_SECONDS >= ROUND_SECONDS
    }

    /// Takes in the exchange's answer, `None` where it has no such market, and goes
    /// back one round where there is reason to.
    pub fn answer(&mut self, reply: &Option<MarketListing>, seen_ids: &Vec<String>) -> (r:
        SearchStep)
        requires
            old(self)@.valid(),
            old(self)@.step(tradable(*reply, seen_ids@)) == SearchStep::TryPrevious ==> old(
                self,
            )@.has_previous(),
        ensures
            r == old(self)@.step(tradable(*reply, seen_ids@)),
            final(self)@ == if r == SearchStep::TryPrevious {
                old(self)@.previous()
            } else {
                old(self)@
            },
            final(self)@.valid(),
    {
        if is_tradable(reply, seen_ids) {
            SearchStep::Found
        } else if self.offset < EARLIER_ROUNDS {
            self.offset = self.offset + 1;
            SearchStep::TryPrevious
        } else {
            SearchStep::NotFound
        }
    }
}

/// A search ends with the market of the latest round, of the current one and the
/// three before it, that can be traded, and fails only where none of the four can.
pub proof fn law_search_finds_the_latest_market(
    search: SearchView,
    good: spec_fn(Seq<char>) -> bool,
)
    requires
        search.offset <= EARLIER_ROUNDS,
    ensures
        match search.result(good) {
            Some(k) => {
                &&& search.offset <= k <= EARLIER_ROUNDS
                &&& good((SearchView { offset: k, ..search }).slug())
                &&& forall|j: u64|
                    search.offset <= j < k ==> !good(
                        (#[trigger] (SearchView { offset: j, ..search }).slug()),
                    )
            },
            None => forall|j: u64|
                search.offset <= j <= EARLIER_ROUNDS ==> !good(
                    (#[trigger] (SearchView { offset: j, ..search }).slug()),
                ),
        },
    decreases EARLIER_ROUNDS - search.offset,
{
    assert((SearchView { offset: search.offset, ..search }) == search);
    if !good(search.slug()) && search.offset < EARLIER_ROUNDS {
        let next = search.previous();
        law_search_finds_the_latest_market(next, good);
        assert forall|j: u64| search.offset < j implies #[trigger] (SearchView {
            offset: j,
            ..search
        }).slug() == (SearchView { offset: j, ..next }).slug() by {}
    }
}

/// The assets that are traded, in any case, and the prefix of each.
pub proof fn law_four_assets_are_supported(asset: Seq<char>)
    ensures
        prefix_of(asset) == Some(seq!['b', 't', 'c']) <==> asset.len() == 3 && (asset[0] == 'b' || asset[0] == 'B') && (asset[1] == 't' || asset[1] == 'T') && (asset[2] == 'c' || asset[2] == 'C'),
        prefix_of(asset) == Some(seq!['e', 't', 'h']) <==> asset.len() == 3 && (asset[0] == 'e' || asset[0] == 'E') && (asset[1] == 't' || asset[1] == 'T') && (asset[2] == 'h' || asset[2] == 'H'),
        prefix_of(asset) == Some(seq!['s', 'o', 'l']) <==> asset.len() == 3 && (asset[0] == 's' || asset[0] == 'S') && (asset[1] == 'o' || asset[1] == 'O') && (asset[2] == 'l' || asset[2] == 'L'),
        prefix_of(asset) == Some(seq!['x', 'r', 'p']) <==> asset.len() == 3 && (asset[0] == 'x' || asset[0] == 'X') && (asset[1] == 'r' || asset[1] == 'R') && (asset[2] == 'p' || asset[2] == 'P'),
        prefix_of(asset) is Some ==> prefix_of(asset) == Some(seq!['b', 't', 'c']) || prefix_of(asset) == Some(seq!['e', 't', 'h']) || prefix_of(asset) == Some(seq!['s', 'o', 'l']) || prefix_of(asset) == Some(seq!['x', 'r', 'p']),
{
    reveal_strlit("btc");
    assert("btc"@ =~= seq!['b', 't', 'c']);
    law_case_is_all_that_is_ignored(asset, "btc"@);
    reveal_strlit("eth");
    assert("eth"@ =~= seq!['e', 't', 'h']);
    law_case_is_all_that_is_ignored(asset, "eth"@);
    reveal_strlit("sol");
    assert("sol"@ =~= seq!['s', 'o', 'l']);
    law_case_is_all_that_is_ignored(asset, "sol"@);
    reveal_strlit("xrp");
    assert("xrp"@ =~= seq!['x', 'r', 'p']);
    law_case_is_all_that_is_ignored(asset, "xrp"@);
    if prefix_of(asset) is Some {
        let p = prefix_of(asset)->0;
        assert(p[0] == 'b' || p[0] == 'e' || p[0] == 's' || p[0] == 'x');
    }
    assert(seq!['b', 't', 'c'][0] == 'b');
    assert(seq!['e', 't', 'h'][0] == 'e');
    assert(seq!['s', 'o', 'l'][0] == 's');
    assert(seq!['x', 'r', 'p'][0] == 'x');
    if asset.len() == 3 {
        assert(asset =~= seq![asset[0], asset[1], asset[2]]);
    }
}

/// A slug names the asset, the kind of market and the start of the round, in this order.
pub proof fn law_what_a_slug_says(prefix: Seq<char>, period: u64)
    ensures
        slug_of(prefix, period) == prefix + seq![
            '-', 'u', 'p', 'd', 'o', 'w', 'n', '-', '1', '5', 'm', '-',
        ] + decimal(period as nat),
{
    reveal_strlit("-updown-15m-");
    assert("-updown-15m-"@ =~= seq![
        '-', 'u', 'p', 'd', 'o', 'w', 'n', '-', '1', '5', 'm', '-',
    ]);
}

/// A market is traded if and only if the exchange knows it, it is active and not closed, and
/// its id is none of those seen.
pub proof fn law_which_markets_are_traded(reply: Option<MarketListing>, seen_ids: Seq<String>)
    ensures
        tradable(reply, seen_ids) <==> reply is Some && reply->0.active && !reply->0.closed
            && forall|i: int|
            0 <= i < seen_ids.len() ==> (#[trigger] seen_ids[i])@ != reply->0.condition_id@,
{
}

/// A search begins with the round of the present time. While the answers are no market to
/// trade it goes back by a quarter of an hour at a time, three times at most, and never
/// before the beginning of time.
pub proof fn law_how_a_search_goes_on(
    prefix: Seq<char>,
    now: u64,
    search: SearchView,
    good: bool,
)
    ensures
        ({
            let start = SearchView::start(prefix, now);
            &&& start.prefix == prefix
            &&& start.offset == 0
            &&& start.rounded_time <= now < start.rounded_time + 900
            &&& start.rounded_time % 900 == 0
        }),
        search.offset < 3 ==> {
            let next = search.previous();
            &&& next.prefix == search.prefix
            &&& next.rounded_time == search.rounded_time
            &&& next.offset == search.offset + 1
        },
        search.valid() <==> search.offset <= 3 && search.offset * 900 <= search.rounded_time,
        search.has_previous() <==> (search.offset + 1) * 900 <= search.rounded_time,
        search.valid() ==> search.slug() == slug_of(
            search.prefix,
            (search.rounded_time - search.offset * 900) as u64,
        ),
        good ==> search.step(good) == SearchStep::Found,
        !good && search.offset < 3 ==> search.step(good) == SearchStep::TryPrevious,
        !good && search.offset >= 3 ==> search.step(good) == SearchStep::NotFound,
{
}

/// Rounds of fifteen minutes are the only ones that there are markets for.
pub proof fn law_rounds_last_fifteen_minutes()
    ensures
        MARKET_MINUTES == 15,
        MARKET_MINUTES * 60 == ROUND_SECONDS,
        EARLIER_ROUNDS == 3,
{
}

} // verus!
