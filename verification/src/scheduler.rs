//! The event loop's handling of a batch of hotplug notifications that are
//! available at once: hotplug subsystems commonly emit several notifications
//! per physical plug event, so the loop drains a whole run of duplicates and
//! answers it with a single discovery burst.

use vstd::prelude::*;
use crate::hotplug::DeviceEvent;

verus! {

/// Length of the run of events equal to `events[from]` that starts at
/// `from`: the first index at or after `from` holding a different event, or
/// the end.
pub open spec fn spec_run_end(events: Seq<DeviceEvent>, from: int) -> int
    decreases events.len() - from,
{
    if from < 0 || from >= events.len() {
        events.len() as int
    } else if from + 1 < events.len() && events[from + 1] == events[from] {
        spec_run_end(events, from + 1)
    } else {
        from + 1
    }
}

proof fn lemma_run_end(events: Seq<DeviceEvent>, from: int)
    requires
        0 <= from < events.len(),
    ensures
        from < spec_run_end(events, from) <= events.len(),
        forall|j: int| from <= j < spec_run_end(events, from) ==> events[j] == events[from],
    decreases events.len() - from,
{
    if from + 1 < events.len() && events[from + 1] == events[from] {
        lemma_run_end(events, from + 1);
    }
}

/// How many discovery bursts the loop answers a batch of hotplug
/// notifications with: one per maximal run of consecutive `Connected`
/// notifications, none for `Disconnected` runs (those only drop the device).
pub open spec fn spec_discovery_bursts(events: Seq<DeviceEvent>) -> nat
    decreases events.len(),
    via spec_discovery_bursts_decreases
{
    if events.len() == 0 {
        0
    } else {
        let rest = events.skip(spec_run_end(events, 0));
        if events[0] is Connected {
            1 + spec_discovery_bursts(rest)
        } else {
            spec_discovery_bursts(rest)
        }
    }
}

#[via_fn]
proof fn spec_discovery_bursts_decreases(events: Seq<DeviceEvent>) {
    if events.len() > 0 {
        lemma_run_end(events, 0);
    }
}

/// Law: a burst of any number of consecutive `Connected` notifications is
/// answered with exactly one discovery burst, not one per notification.
pub proof fn lemma_burst_single_discovery(events: Seq<DeviceEvent>)
    requires
        events.len() > 0,
        forall|i: int| 0 <= i < events.len() ==> events[i] is Connected,
    ensures
        spec_discovery_bursts(events) == 1,
    decreases events.len(),
{
    lemma_run_end(events, 0);
    let end = spec_run_end(events, 0);
    assert forall|k: int| 0 <= k < events.len() implies #[trigger] events[k] == events[0] by {
        assert(events[k] is Connected && events[0] is Connected);
    }
    assert(end == events.len()) by {
        if end < events.len() {
            lemma_run_end_is_boundary(events, 0);
        }
    }
    assert(events.skip(end).len() == 0);
    assert(spec_discovery_bursts(events.skip(end)) == 0);
    assert(spec_discovery_bursts(events) == 1 + spec_discovery_bursts(events.skip(end)));
}

proof fn lemma_run_end_is_boundary(events: Seq<DeviceEvent>, from: int)
    requires
        0 <= from < events.len(),
        spec_run_end(events, from) < events.len(),
    ensures
        events[spec_run_end(events, from)] != events[from],
    decreases events.len() - from,
{
    if from + 1 < events.len() && events[from + 1] == events[from] {
        lemma_run_end_is_boundary(events, from + 1);
    }
}

/// The run end is the unique boundary: it follows a block of equal events
/// and either is the end of the batch or holds a different event.
proof fn lemma_run_end_char(events: Seq<DeviceEvent>, from: int, e: int)
    requires
        0 <= from < events.len(),
        from < e <= events.len(),
        forall|j: int| from <= j < e ==> events[j] == events[from],
        e < events.len() ==> events[e] != events[from],
    ensures
        spec_run_end(events, from) == e,
    decreases events.len() - from,
{
    if from + 1 < events.len() && events[from + 1] == events[from] {
        assert(e != from + 1);
        lemma_run_end_char(events, from + 1, e);
    }
}

/// Counts the discovery bursts the loop answers a batch with: the number of
/// maximal runs of consecutive `Connected` notifications.  This is the
/// draining the loop performs, with the bursts themselves left out.
pub fn discovery_bursts(events: &Vec<DeviceEvent>) -> (n: usize)
    ensures
        n == spec_discovery_bursts(events@),
{
    let len = events.len();
    let mut n: usize = 0;
    let mut i: usize = 0;
    proof {
        assert(events@.skip(0) =~= events@);
    }
    while i < len
        invariant
            i <= len,
            len == events@.len(),
            n <= i,
            n + spec_discovery_bursts(events@.skip(i as int)) == spec_discovery_bursts(events@),
        decreases len - i,
    {
        let ghost pre = events@.skip(i as int);
        let here = events[i];
        let mut j: usize = i + 1;
        while j < len && events[j] == here
            invariant
                i < j <= len,
                i < len,
                len == events@.len(),
                here == events@[i as int],
                forall|k: int| i <= k < j ==> events@[k] == here,
            decreases len - j,
        {
            j += 1;
        }
        proof {
            assert forall|k: int| 0 <= k < j - i implies #[trigger] pre[k] == pre[0] by {
                assert(pre[k] == events@[i + k]);
            }
            lemma_run_end_char(pre, 0, j - i);
            assert(pre.skip(j - i) =~= events@.skip(j as int));
        }
        if matches!(here, DeviceEvent::Connected) {
            n += 1;
        }
        i = j;
    }
    assert(events@.skip(len as int).len() == 0);
    n
}

} // verus!
