//! Rounds of fifteen minutes, and when to look for the market of the next one.

use vstd::prelude::*;

verus! {

/// The length of a round in seconds.
pub const ROUND_SECONDS: u64 = 900;

/// How long to wait, in seconds, where the new round has not begun.
pub const SAME_PERIOD_WAIT_SECONDS: u64 = 5;

/// How long to wait, in seconds, where the new round's market was not found.
pub const RETRY_WAIT_SECONDS: u64 = 10;

/// The start of the round that a time belongs to.
pub open spec fn round_start(time: u64) -> u64 {
    (time / ROUND_SECONDS * ROUND_SECONDS) as u64
}

/// The start of the round that a time belongs to.
pub fn current_period(time: u64) -> (r: u64)
    ensures
        r == round_start(time),
        r <= time < r + ROUND_SECONDS,
        r % ROUND_SECONDS == 0,
{
    time / ROUND_SECONDS * ROUND_SECONDS
}

/// Rounds start at whole multiples of fifteen minutes, and each time belongs to
/// exactly one of them.
pub proof fn law_each_time_has_one_round(time: u64, start: u64)
    ensures
        start % 900 == 0 && start <= time < start + 900 <==> start == round_start(time),
{
}

/// The seconds from `now` to the end of the round that starts at `market_timestamp`,
/// zero where it has passed.
pub fn seconds_to_next_period(market_timestamp: u64, now: u64) -> (r: u64)
    requires
        market_timestamp + ROUND_SECONDS <= u64::MAX,
    ensures
        r as int == if market_timestamp + ROUND_SECONDS > now {
            market_timestamp + ROUND_SECONDS - now
        } else {
            0
        },
{
    let next_period_timestamp: u64 = market_timestamp + ROUND_SECONDS;
    if next_period_timestamp > now {
        next_period_timestamp - now
    } else {
        0
    }
}

/// What to do on waking up at the end of a round.
#[derive(Clone, Copy, Debug, PartialEq, Eq, Structural)]
pub enum WakeAction {
    /// The round was handled before: sleep for some seconds.
    Wait { seconds: u64 },
    /// Look for the market of a new round.
    Discover { period: u64 },
}

/// What to do once the search for a new market is over.
#[derive(Clone, Copy, Debug, PartialEq, Eq, Structural)]
pub enum FollowUp {
    /// Forget the markets of the last round.
    ResetTrader,
    /// The new market could not be taken over: go on as before.
    Continue,
    /// No market was found: sleep for some seconds.
    Wait { seconds: u64 },
}

/// Follows the rounds of one asset and handles each of them once.
#[derive(Debug)]
pub struct PeriodWatcher {
    last_processed_period: Option<u64>,
}

impl View for PeriodWatcher {
    type V = Option<u64>;

    closed spec fn view(&self) -> Option<u64> {
        self.last_processed_period
    }
}

impl PeriodWatcher {
    /// A watcher that has handled no round.
    pub fn new() -> (r: PeriodWatcher)
        ensures
            r@ is None,
    {
        PeriodWatcher { last_processed_period: None }
    }

    /// Decides what to do at the time `now`. A round that is new counts as
    /// handled from here on, whatever comes of the search.
    pub fn wake(&mut self, now: u64) -> (r: WakeAction)
        ensures
            final(self)@ == Some(round_start(now)),
            r == if old(self)@ == Some(round_start(now)) {
                WakeAction::Wait { seconds: SAME_PERIOD_WAIT_SECONDS }
            } else {
                WakeAction::Discover { period: round_start(now) }
            },
    {
        let period: u64 = current_period(now);
        if let Some(last_period) = self.last_processed_period {
            if period == last_period {
                return WakeAction::Wait { seconds: SAME_PERIOD_WAIT_SECONDS };
            }
        }
        self.last_processed_period = Some(period);
        WakeAction::Discover { period }
    }
}

/// Decides how to go on after the search for a market. `updated` tells whether the
/// monitor took over the market that was found.
pub fn after_discovery(found: bool, updated: bool) -> (r: FollowUp)
    ensures
        found && updated ==> r == FollowUp::ResetTrader,
        found && !updated ==> r == FollowUp::Continue,
        !found ==> r == (FollowUp::Wait { seconds: RETRY_WAIT_SECONDS }),
{
    if !found {
        FollowUp::Wait { seconds: RETRY_WAIT_SECONDS }
    } else if updated {
        FollowUp::ResetTrader
    } else {
        FollowUp::Continue
    }
}

/// The end of a round is the start of the next one: within a round the start does not
/// change, and 900 seconds later it is later by as much.
pub proof fn law_rounds_follow_each_other(time: u64, later: u64)
    ensures
        round_start(time) <= later < round_start(time) + 900 ==> round_start(later)
            == round_start(time),
        later == time + 900 ==> round_start(later) == round_start(time) + 900,
        time <= later ==> round_start(time) <= round_start(later),
{
}

/// The waits and the length of a round, in seconds.
pub proof fn law_waits_are_short()
    ensures
        ROUND_SECONDS == 15 * 60,
        SAME_PERIOD_WAIT_SECONDS == 5,
        RETRY_WAIT_SECONDS == 10,
{
}

} // verus!
