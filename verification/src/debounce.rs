//! The coalescing (rate-limit) policy for raw filesystem events.
//!
//! Rapid successive raw events on a watched path are merged into a single
//! logical notification: an event opens a new notification exactly when it
//! is the first ever seen, or when at least the configured interval has
//! passed since the previous raw event. An interval of zero therefore
//! coalesces nothing. Times and the interval are plain ticks; any unit
//! works as long as it is used consistently.

use vstd::prelude::*;

verus! {

/// The incremental debouncer for one stream of raw events: the configured
/// interval and the time of the last raw event seen, if any.
pub struct Debouncer {
    pub interval: u64,
    pub last: Option<u64>,
}

impl Debouncer {
    /// Whether a raw event at time `t` opens a new logical notification:
    /// yes for the first event ever, and for one at least `interval` ticks
    /// after the previous raw event.
    pub open spec fn spec_emits(self, t: u64) -> bool {
        match self.last {
            Option::None => true,
            Option::Some(prev) => t >= prev + self.interval,
        }
    }

    /// A fresh debouncer that has seen no event yet.
    pub fn new(interval: u64) -> (d: Debouncer)
        ensures
            d.interval == interval,
            d.last is None,
    {
        Debouncer { interval, last: None }
    }

    /// Record a raw event at time `t` and decide whether it opens a new
    /// logical notification. Times must be observed in order.
    pub fn observe(&mut self, t: u64) -> (emit: bool)
        requires
            old(self).last matches Some(prev) ==> prev <= t,
        ensures
            emit == old(self).spec_emits(t),
            final(self).interval == old(self).interval,
            final(self).last == Some(t),
    {
        let emit = match self.last {
            Option::None => true,
            Option::Some(prev) => t - prev >= self.interval,
        };
        self.last = Some(t);
        emit
    }
}

/// Event times come in order: each is at least its predecessor.
pub open spec fn times_ordered(times: Seq<u64>) -> bool {
    forall|i: int| 0 < i < times.len() ==> times[i - 1] <= #[trigger] times[i]
}

/// How many logical notifications a run of raw events produces when the
/// previous raw event happened at time `prev`.
pub open spec fn spec_coalesce_from(prev: u64, times: Seq<u64>, interval: u64) -> nat
    decreases times.len(),
{
    if times.len() == 0 {
        0
    } else {
        (if times[0] >= prev + interval { 1nat } else { 0nat })
            + spec_coalesce_from(times[0], times.drop_first(), interval)
    }
}

/// How many logical notifications a whole run of raw events produces: the
/// first event always opens one, and each later event opens one exactly
/// when it comes at least `interval` ticks after its predecessor.
pub open spec fn spec_coalesced_count(times: Seq<u64>, interval: u64) -> nat {
    if times.len() == 0 {
        0
    } else {
        1 + spec_coalesce_from(times[0], times.drop_first(), interval)
    }
}

/// Count the logical notifications that a time-ordered run of raw events
/// produces under the given interval, by feeding the run through a
/// [`Debouncer`].
pub fn coalesced_count(times: &Vec<u64>, interval: u64) -> (n: usize)
    requires
        times_ordered(times@),
    ensures
        n == spec_coalesced_count(times@, interval),
{
    let ghost whole = times@;
    let mut d = Debouncer::new(interval);
    let mut n: usize = 0;
    let mut i: usize = 0;
    while i < times.len()
        invariant
            i <= whole.len(),
            times@ == whole,
            times_ordered(whole),
            d.interval == interval,
            n <= i,
            i == 0 ==> d.last is None && n == 0,
            i > 0 ==> d.last == Some(whole[i - 1])
                && n + spec_coalesce_from(whole[i - 1], whole.skip(i as int), interval)
                    == spec_coalesced_count(whole, interval),
        decreases whole.len() - i,
    {
        assert(whole.skip(i as int)[0] == whole[i as int]);
        assert(whole.skip(i as int).drop_first() =~= whole.skip(i as int + 1));
        if d.observe(times[i]) {
            n = n + 1;
        }
        i = i + 1;
    }
    assert(whole.skip(whole.len() as int) =~= Seq::<u64>::empty());
    n
}

/// A burst coalesces away: after an event at `prev`, a run of events each
/// of which comes less than `interval` after its predecessor (the first of
/// them less than `interval` after `prev`) opens no notification at all.
proof fn lemma_coalesce_from_zero(prev: u64, times: Seq<u64>, interval: u64)
    requires
        times.len() > 0 ==> prev <= times[0] && times[0] < prev + interval,
        forall|i: int| 0 < i < times.len()
            ==> times[i - 1] <= #[trigger] times[i] && times[i] < times[i - 1] + interval,
    ensures
        spec_coalesce_from(prev, times, interval) == 0,
    decreases times.len(),
{
    if times.len() > 0 {
        let rest = times.drop_first();
        assert forall|i: int| 0 < i < rest.len()
            implies rest[i - 1] <= #[trigger] rest[i] && rest[i] < rest[i - 1] + interval by {
            assert(rest[i] == times[i + 1]);
            assert(rest[i - 1] == times[i]);
        }
        if rest.len() > 0 {
            assert(rest[0] == times[1]);
        }
        lemma_coalesce_from_zero(times[0], rest, interval);
    }
}

/// Debounce, merging direction: raw events on the same path that each
/// follow their predecessor by less than the configured interval yield
/// exactly one logical notification, however many they are.
pub proof fn lemma_burst_single_notification(times: Seq<u64>, interval: u64)
    requires
        times.len() > 0,
        forall|i: int| 0 < i < times.len()
            ==> times[i - 1] <= #[trigger] times[i] && times[i] < times[i - 1] + interval,
    ensures
        spec_coalesced_count(times, interval) == 1,
{
    let rest = times.drop_first();
    assert forall|i: int| 0 < i < rest.len()
        implies rest[i - 1] <= #[trigger] rest[i] && rest[i] < rest[i - 1] + interval by {
        assert(rest[i] == times[i + 1]);
        assert(rest[i - 1] == times[i]);
    }
    if rest.len() > 0 {
        assert(rest[0] == times[1]);
    }
    lemma_coalesce_from_zero(times[0], rest, interval);
}

/// Debounce, separating direction: raw events that each follow their
/// predecessor by at least the configured interval are never merged; each
/// yields its own logical notification.
pub proof fn lemma_spaced_events_separate(times: Seq<u64>, interval: u64)
    requires
        forall|i: int| 0 < i < times.len() ==> times[i - 1] + interval <= #[trigger] times[i],
    ensures
        spec_coalesced_count(times, interval) == times.len(),
    decreases times.len(),
{
    if times.len() > 0 {
        lemma_coalesce_from_full(times[0], times.drop_first(), interval);
    }
}

/// Separating direction, with the previous event's time given: every event
/// of such a spaced run opens its own notification.
proof fn lemma_coalesce_from_full(prev: u64, times: Seq<u64>, interval: u64)
    requires
        times.len() > 0 ==> prev + interval <= times[0],
        forall|i: int| 0 < i < times.len() ==> times[i - 1] + interval <= #[trigger] times[i],
    ensures
        spec_coalesce_from(prev, times, interval) == times.len(),
    decreases times.len(),
{
    if times.len() > 0 {
        let rest = times.drop_first();
        assert forall|i: int| 0 < i < rest.len()
            implies rest[i - 1] + interval <= #[trigger] rest[i] by {
            assert(rest[i] == times[i + 1]);
            assert(rest[i - 1] == times[i]);
        }
        if rest.len() > 0 {
            assert(rest[0] == times[1]);
        }
        lemma_coalesce_from_full(times[0], rest, interval);
    }
}

/// An interval of zero coalesces nothing: every raw event of a time-ordered
/// run yields its own logical notification.
pub proof fn lemma_zero_interval_no_coalescing(times: Seq<u64>)
    requires
        times_ordered(times),
    ensures
        spec_coalesced_count(times, 0) == times.len(),
{
    lemma_spaced_events_separate(times, 0);
}

} // verus!
