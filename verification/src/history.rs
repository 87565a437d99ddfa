//! Short price histories and the detection of a dump in one.

use std::collections::VecDeque;
use vstd::prelude::*;

use crate::units::ONE;

verus! {

/// How many samples a history keeps.
pub const HISTORY_LIMIT: usize = 10;

/// How far back, in seconds, the reference sample of a dump lies.
pub const LOOKBACK_SECONDS: u64 = 3;

/// The longest span, in seconds, over which a fall counts as a dump.
pub const MAX_SPAN_SECONDS: u64 = 5;

/// A history after one more sample: the oldest sample goes when the limit is passed.
pub open spec fn with_sample(history: Seq<(u64, i64)>, sample: (u64, i64)) -> Seq<(u64, i64)> {
    if history.len() >= HISTORY_LIMIT {
        history.push(sample).skip(1)
    } else {
        history.push(sample)
    }
}

/// The sample with the latest time among those taken at `bound` or before; the
/// first of them where several share that time.
pub open spec fn latest_sample(history: Seq<(u64, i64)>, bound: u64) -> Option<(u64, i64)>
    decreases history.len(),
{
    if history.len() == 0 {
        None
    } else {
        let before = latest_sample(history.drop_last(), bound);
        let sample = history.last();
        if sample.0 <= bound && (before is None || sample.0 > (before->0).0) {
            Some(sample)
        } else {
            before
        }
    }
}

/// The time that lies `LOOKBACK_SECONDS` before `current_time`, not before zero.
pub open spec fn lookback_time(current_time: u64) -> u64 {
    if current_time >= LOOKBACK_SECONDS {
        (current_time - LOOKBACK_SECONDS) as u64
    } else {
        0
    }
}

/// The sample that a fall is measured from: the latest one that is old enough,
/// or else the oldest one.
pub open spec fn reference_sample(history: Seq<(u64, i64)>, current_time: u64) -> (u64, i64) {
    match latest_sample(history, lookback_time(current_time)) {
        Some(sample) => sample,
        None => history[0],
    }
}

/// The sample that a fall is measured to.
pub open spec fn newest_sample(history: Seq<(u64, i64)>) -> (u64, i64) {
    latest_sample(history, u64::MAX)->0
}

/// Whether `new_price` lies below `old_price` by at least the part `threshold` of it.
pub open spec fn falls_by(old_price: i64, new_price: i64, threshold: i64) -> bool {
    &&& old_price - new_price > 0
    &&& (old_price - new_price) * ONE >= threshold * old_price
}

/// What a history says about a dump: nothing where it holds fewer than two
/// samples, no positive reference price, or samples too close or too far apart.
pub open spec fn dump_verdict(
    history: Seq<(u64, i64)>,
    current_time: u64,
    threshold: i64,
) -> Option<bool> {
    let old = reference_sample(history, current_time);
    let new = newest_sample(history);
    if history.len() < 2 || old.1 <= 0 || new.0 <= old.0 || new.0 - old.0 > MAX_SPAN_SECONDS {
        None
    } else {
        Some(falls_by(old.1, new.1, threshold))
    }
}

/// Whether a history shows a dump.
pub open spec fn shows_dump(history: Seq<(u64, i64)>, current_time: u64, threshold: i64) -> bool {
    dump_verdict(history, current_time, threshold) == Some(true)
}

/// Appends a sample and keeps the history within its limit.
pub fn add_sample(history: &mut VecDeque<(u64, i64)>, time: u64, price: i64)
    ensures
        final(history)@ == with_sample(old(history)@, (time, price)),
        old(history)@.len() <= HISTORY_LIMIT ==> final(history)@.len() <= HISTORY_LIMIT,
{
    history.push_back((time, price));
    if history.len() > HISTORY_LIMIT {
        let _ = history.pop_front();
    }
}

/// Looks for a dump: a fall of at least `move_threshold` within a few seconds.
pub fn check_dump(
    price_history: &VecDeque<(u64, i64)>,
    current_time: u64,
    move_threshold: i64,
) -> (r: Option<bool>)
    ensures
        r == dump_verdict(price_history@, current_time, move_threshold),
{
    if price_history.len() < 2 {
        return None;
    }
    let three_seconds_ago: u64 = current_time.saturating_sub(LOOKBACK_SECONDS);
    let mut old: Option<(u64, i64)> = None;
    let mut new: Option<(u64, i64)> = None;
    let mut i: usize = 0;
    while i < price_history.len()
        invariant
            i <= price_history@.len(),
            old == latest_sample(price_history@.take(i as int), three_seconds_ago),
            new == latest_sample(price_history@.take(i as int), u64::MAX),
            i > 0 ==> new is Some,
        decreases price_history@.len() - i,
    {
        assert(price_history@.take(i + 1).drop_last() =~= price_history@.take(i as int));
        let sample: (u64, i64) = price_history[i];
        if sample.0 <= three_seconds_ago {
            let later: bool = match old {
                Some(found) => sample.0 > found.0,
                None => true,
            };
            if later {
                old = Some(sample);
            }
        }
        let newer: bool = match new {
            Some(found) => sample.0 > found.0,
            None => true,
        };
        if newer {
            new = Some(sample);
        }
        i = i + 1;
    }
    assert(price_history@.take(i as int) =~= price_history@);
    let reference: (u64, i64) = match old {
        Some(sample) => sample,
        None => price_history[0],
    };
    match new {
        Some(newest) if reference.1 > 0 => {
            let time_diff: u64 = newest.0.saturating_sub(reference.0);
            if time_diff < 1 || time_diff > MAX_SPAN_SECONDS {
                return None;
            }
            let price_drop: i128 = reference.1 as i128 - newest.1 as i128;
            let scaled_drop: i128 = price_drop * (ONE as i128);
            assert(-0x4000_0000_0000_0000_0000_0000_0000_0000 <= (move_threshold as int) * (
            reference.1 as int) <= 0x4000_0000_0000_0000_0000_0000_0000_0000) by (nonlinear_arith)
                requires
                    i64::MIN <= move_threshold <= i64::MAX,
                    i64::MIN <= reference.1 <= i64::MAX,
            ;
            let needed: i128 = (move_threshold as i128) * (reference.1 as i128);
            Some(price_drop > 0 && scaled_drop >= needed)
        },
        _ => None,
    }
}

/// The latest sample belongs to the history and respects the bound; no sample
/// within the bound is later, and none before it is as late.
pub proof fn law_latest_sample(history: Seq<(u64, i64)>, bound: u64) -> (i: int)
    ensures
        latest_sample(history, bound) is None <==> (forall|j: int|
            0 <= j < history.len() ==> (#[trigger] history[j]).0 > bound),
        latest_sample(history, bound) is Some ==> {
            &&& 0 <= i < history.len()
            &&& history[i] == latest_sample(history, bound)->0
            &&& history[i].0 <= bound
            &&& forall|j: int|
                0 <= j < history.len() && (#[trigger] history[j]).0 <= bound ==> history[j].0
                    <= history[i].0
            &&& forall|j: int|
                0 <= j < i && (#[trigger] history[j]).0 <= bound ==> history[j].0 < history[i].0
        },
    decreases history.len(),
{
    if history.len() == 0 {
        0
    } else {
        let shorter = history.drop_last();
        let k = law_latest_sample(shorter, bound);
        let last = history.len() - 1;
        assert(forall|j: int| 0 <= j < last ==> shorter[j] == #[trigger] history[j]);
        let before = latest_sample(shorter, bound);
        if history[last].0 <= bound && (before is None || history[last].0 > (before->0).0) {
            if before is Some {
                assert(shorter[k] == before->0);
            } else {
                assert forall|j: int| 0 <= j < last implies (#[trigger] history[j]).0 > bound by {
                    assert(shorter[j] == history[j]);
                }
            }
            assert(history[last] == latest_sample(history, bound)->0);
            assert forall|j: int|
                0 <= j < history.len() && (#[trigger] history[j]).0 <= bound implies history[j].0
                <= history[last].0 by {
                if j < last {
                    assert(shorter[j] == history[j]);
                }
            }
            assert forall|j: int|
                0 <= j < last && (#[trigger] history[j]).0 <= bound implies history[j].0
                < history[last].0 by {
                assert(shorter[j] == history[j]);
            }
            last
        } else {
            assert(latest_sample(history, bound) == before);
            if before is Some {
                assert(history[k] == shorter[k]);
                assert forall|j: int|
                    0 <= j < history.len() && (#[trigger] history[j]).0 <= bound implies history[j].0
                    <= history[k].0 by {
                    if j < last {
                        assert(shorter[j] == history[j]);
                    }
                }
                assert forall|j: int|
                    0 <= j < k && (#[trigger] history[j]).0 <= bound implies history[j].0
                    < history[k].0 by {
                    assert(shorter[j] == history[j]);
                }
            } else {
                assert forall|j: int| 0 <= j < history.len() implies (#[trigger] history[j]).0
                    > bound by {
                    if j < last {
                        assert(shorter[j] == history[j]);
                    }
                }
            }
            k
        }
    }
}

/// A dump is a real fall: two samples of the history, one to five seconds
/// apart, of which the later price is lower by at least the threshold.
pub proof fn law_dump_is_a_quick_fall(
    history: Seq<(u64, i64)>,
    current_time: u64,
    threshold: i64,
)
    requires
        shows_dump(history, current_time, threshold),
    ensures
        exists|i: int, j: int|
            #![trigger history[i], history[j]]
            0 <= i < history.len() && 0 <= j < history.len() && 1 <= history[j].0 - history[i].0
                <= MAX_SPAN_SECONDS && falls_by(history[i].1, history[j].1, threshold),
{
    let k = law_latest_sample(history, lookback_time(current_time));
    let i = if latest_sample(history, lookback_time(current_time)) is Some {
        k
    } else {
        0
    };
    let j = law_latest_sample(history, u64::MAX);
    assert(history[0].0 <= u64::MAX);
    assert(history[i] == reference_sample(history, current_time));
    assert(history[j] == newest_sample(history));
}

/// A history of fewer than ten samples grows by the new one; a longer one loses its
/// oldest sample for it. The samples in between keep their order.
pub proof fn law_a_sample_goes_to_the_end(history: Seq<(u64, i64)>, sample: (u64, i64))
    ensures
        ({
            let after = with_sample(history, sample);
            let dropped: int = if history.len() >= 10 { 1 } else { 0 };
            &&& after.len() == history.len() + 1 - dropped
            &&& after.last() == sample
            &&& forall|i: int|
                0 <= i < history.len() - dropped ==> #[trigger] after[i] == history[i + dropped]
        }),
{
}

/// What a history says about a dump, in plain arithmetic. The newest price, the
/// second sample returned, is compared to the latest price that is at least three
/// seconds old, or else to the first one. The verdict is a dump if and only if the
/// newer price is lower, by at least the part `threshold` of the older one; there is
/// no verdict where the older price is not positive, where the two are not one to
/// five seconds apart, or where there are fewer than two samples.
pub proof fn law_dump_detection_is_exact(
    history: Seq<(u64, i64)>,
    current_time: u64,
    threshold: i64,
) -> (r: (int, int))
    ensures
        history.len() < 2 ==> dump_verdict(history, current_time, threshold) is None,
        history.len() >= 2 ==> ({
            let (i, j) = r;
            let limit: int = if current_time >= 3 { current_time - 3 } else { 0 };
            &&& 0 <= i < history.len()
            &&& 0 <= j < history.len()
            &&& forall|k: int|
                0 <= k < history.len() ==> (#[trigger] history[k]).0 <= history[j].0
            &&& forall|k: int| 0 <= k < j ==> (#[trigger] history[k]).0 < history[j].0
            &&& history[i].0 <= limit ==> {
                &&& forall|k: int|
                    0 <= k < history.len() && (#[trigger] history[k]).0 <= limit ==> history[k].0
                        <= history[i].0
                &&& forall|k: int|
                    0 <= k < i && (#[trigger] history[k]).0 <= limit ==> history[k].0
                        < history[i].0
            }
            &&& history[i].0 > limit ==> {
                &&& i == 0
                &&& forall|k: int| 0 <= k < history.len() ==> (#[trigger] history[k]).0 > limit
            }
            &&& dump_verdict(history, current_time, threshold) == if history[i].1 > 0 && 1
                <= history[j].0 - history[i].0 <= 5 {
                Some(
                    history[j].1 < history[i].1 && (history[i].1 - history[j].1) * 1_000_000_000
                        >= threshold * history[i].1,
                )
            } else {
                None
            }
        }),
{
    if history.len() < 2 {
        (0, 0)
    } else {
        let k = law_latest_sample(history, lookback_time(current_time));
        let i = if latest_sample(history, lookback_time(current_time)) is Some {
            k
        } else {
            0
        };
        let j = law_latest_sample(history, u64::MAX);
        assert(history[0].0 <= u64::MAX);
        assert(history[i] == reference_sample(history, current_time));
        assert(history[j] == newest_sample(history));
        (i, j)
    }
}

/// A deeper fall is a dump where a smaller one is: lowering the newest price never
/// turns a dump into none.
pub proof fn law_a_deeper_fall_is_a_dump_too(
    history: Seq<(u64, i64)>,
    current_time: u64,
    threshold: i64,
    newest: int,
    price: i64,
)
    requires
        0 <= newest < history.len(),
        forall|k: int|
            0 <= k < history.len() && k != newest ==> (#[trigger] history[k]).0
                < history[newest].0,
        price <= history[newest].1,
        dump_verdict(history, current_time, threshold) == Some(true),
    ensures
        dump_verdict(
            history.update(newest, (history[newest].0, price)),
            current_time,
            threshold,
        ) == Some(true),
{
    let lower = history.update(newest, (history[newest].0, price));
    let (i, j) = law_dump_detection_is_exact(history, current_time, threshold);
    let (a, b) = law_dump_detection_is_exact(lower, current_time, threshold);
    assert(forall|k: int| 0 <= k < history.len() ==> (#[trigger] lower[k]).0 == history[k].0);
    assert(forall|k: int|
        0 <= k < history.len() ==> (#[trigger] history[k]).0 == lower[k].0);
    assert(j == newest);
    assert(lower[newest].0 <= lower[b].0);
    assert(b == newest);
    assert(lower[i].0 == history[i].0 && lower[a].0 == history[a].0);
    assert(a == i);
}

/// A lower threshold keeps a dump.
pub proof fn law_a_lower_threshold_keeps_a_dump(
    history: Seq<(u64, i64)>,
    current_time: u64,
    threshold: i64,
    lower: i64,
)
    requires
        lower <= threshold,
        dump_verdict(history, current_time, threshold) == Some(true),
    ensures
        dump_verdict(history, current_time, lower) == Some(true),
{
    let old = reference_sample(history, current_time).1 as int;
    let a = lower as int;
    let b = threshold as int;
    assert(a * old <= b * old) by (nonlinear_arith)
        requires
            a <= b,
            old > 0,
    ;
}

} // verus!
