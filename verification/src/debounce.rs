//! The debounced size recorder: many resize events in quick succession
//! lead to one write of the window's size, made once the resizing has
//! settled.
//!
//! Each resize event marks its time in the recorder and has the host
//! schedule a check `SETTLE_DELAY_MS` later. A check writes only where no
//! newer event has been marked within the quiet period before it. The host
//! keeps the recorder behind a lock and reads the clock; times are
//! milliseconds of a monotonic clock.

use vstd::prelude::*;
use crate::geometry::WindowGeometry;

verus! {

/// The quiet period after which a resized window's size is written, in
/// milliseconds.
pub const SETTLE_DELAY_MS: u64 = 500;

/// The time that has passed between `last` and `now`; none where the clock
/// reads earlier than `last`.
pub open spec fn elapsed(last: int, now: int) -> int {
    if now >= last {
        now - last
    } else {
        0
    }
}

/// Whether the quiet period has passed at `now` since the event at `last`.
pub open spec fn is_settled(last: int, now: int) -> bool {
    elapsed(last, now) >= SETTLE_DELAY_MS
}

/// What the recorder holds once an event at `now` has been marked: that
/// time, whatever it held before.
pub open spec fn marked(previous: int, now: int) -> int {
    now
}

/// The time of the latest resize event.
pub struct SizeRecorder {
    last_event: u64,
}

impl View for SizeRecorder {
    type V = u64;

    closed spec fn view(&self) -> u64 {
        self.last_event
    }
}

impl SizeRecorder {
    /// A recorder that counts `now` as the time of the latest event.
    pub fn new(now: u64) -> (recorder: SizeRecorder)
        ensures
            recorder@ == now,
    {
        SizeRecorder { last_event: now }
    }

    /// The time of the latest event.
    pub fn last_event(&self) -> (time: u64)
        ensures
            time == self@,
    {
        self.last_event
    }

    /// Marks `now` as the time of the latest resize event. The host then
    /// schedules a check for `SETTLE_DELAY_MS` later.
    pub fn on_resize_event(&mut self, now: u64)
        ensures
            final(self)@ == now,
            final(self)@ == marked(old(self)@ as int, now as int),
    {
        self.last_event = now;
    }

    /// The deferred check: tells whether the size is to be written at
    /// `now`, which is so where the quiet period has passed since the latest
    /// event. Where it is not, a newer event has taken over and its own
    /// check will decide.
    pub fn should_persist(&self, now: u64) -> (write: bool)
        ensures
            write == is_settled(self@ as int, now as int),
    {
        if now >= self.last_event {
            now - self.last_event >= SETTLE_DELAY_MS
        } else {
            false
        }
    }
}

/// A resize event: when it happened and the size it left the window with.
pub struct ResizeEvent {
    pub at: int,
    pub size: WindowGeometry,
}

/// The events come in the order of their times, no two at the same time.
pub open spec fn in_order(events: Seq<ResizeEvent>) -> bool {
    forall|i: int, j: int| 0 <= i < j < events.len() ==> events[i].at < events[j].at
}

/// The time from event `i` to the event after it.
pub open spec fn gap_after(events: Seq<ResizeEvent>, i: int) -> int {
    events[i + 1].at - events[i].at
}

/// How many of the events have happened by the time `at`. An event at
/// `at` itself counts as happened.
pub open spec fn happened_by(events: Seq<ResizeEvent>, at: int) -> nat
    decreases events.len(),
{
    if events.len() == 0 {
        0
    } else if events.last().at <= at {
        events.len()
    } else {
        happened_by(events.drop_last(), at)
    }
}

/// What a recorder holds after each of `events` has been marked in turn.
pub open spec fn recorder_after(initial: int, events: Seq<ResizeEvent>) -> int
    decreases events.len(),
{
    if events.len() == 0 {
        initial
    } else {
        marked(recorder_after(initial, events.drop_last()), events.last().at)
    }
}

/// Whether a check made at `at` writes the size: the recorder has been
/// told of the events that have happened by then, and the quiet period has
/// passed since the latest of them.
pub open spec fn check_writes(events: Seq<ResizeEvent>, at: int) -> bool {
    is_settled(recorder_after(0, events.take(happened_by(events, at) as int)), at)
}

/// The size that a check made at `at` finds the window to have: the one
/// that the latest event by then left it with.
pub open spec fn size_at(events: Seq<ResizeEvent>, at: int) -> WindowGeometry {
    events[happened_by(events, at) - 1].size
}

/// The checks that the events schedule are made in time: the check of an
/// event is not made before the quiet period has passed since the event.
pub open spec fn checks_not_early(events: Seq<ResizeEvent>, checks: Seq<int>) -> bool {
    &&& checks.len() == events.len()
    &&& forall|k: int|
        0 <= k < events.len() ==> #[trigger] checks[k] >= events[k].at + SETTLE_DELAY_MS
}

/// The events that have happened by `at` are the first `happened_by` ones.
pub proof fn lemma_happened_by(events: Seq<ResizeEvent>, at: int)
    requires
        in_order(events),
    ensures
        happened_by(events, at) <= events.len(),
        forall|j: int| 0 <= j < happened_by(events, at) ==> events[j].at <= at,
        forall|j: int| happened_by(events, at) <= j < events.len() ==> events[j].at > at,
    decreases events.len(),
{
    if events.len() > 0 && events.last().at > at {
        let rest = events.drop_last();
        assert(in_order(rest)) by {
            assert forall|i: int, j: int| 0 <= i < j < rest.len() implies rest[i].at
                < rest[j].at by {
                assert(events[i].at < events[j].at);
            }
        }
        lemma_happened_by(rest, at);
        assert forall|j: int| 0 <= j < happened_by(events, at) implies events[j].at <= at by {
            assert(rest[j].at <= at);
        }
        assert forall|j: int| happened_by(events, at) <= j < events.len() implies events[j].at
            > at by {
            if j < rest.len() {
                assert(rest[j].at > at);
            }
        }
    }
}

/// Debounce law. A check that is made after some event writes the size
/// exactly where the latest event by then lies at least the quiet period
/// back: no event has happened within the quiet period before the check.
pub proof fn lemma_check_writes_iff_quiet(events: Seq<ResizeEvent>, at: int)
    requires
        in_order(events),
        happened_by(events, at) > 0,
    ensures
        check_writes(events, at) <==> at - events[happened_by(events, at) - 1].at
            >= SETTLE_DELAY_MS,
{
    let m = happened_by(events, at) as int;
    lemma_happened_by(events, at);
    assert(events.take(m).last() == events[m - 1]);
}

/// Burst law. Of resize events that each follow the one before within the
/// quiet period, with each check made before the check of the next event
/// is due, only the last event's check writes. That one write is made the
/// quiet period after the last event or later, and it is of the size that
/// the last event left.
pub proof fn lemma_burst_writes_once(events: Seq<ResizeEvent>, checks: Seq<int>)
    requires
        in_order(events),
        events.len() > 0,
        checks_not_early(events, checks),
        forall|i: int|
            0 <= i < events.len() - 1 ==> #[trigger] gap_after(events, i) < SETTLE_DELAY_MS,
        forall|i: int|
            0 <= i < events.len() - 1 ==> #[trigger] checks[i] < events[i + 1].at
                + SETTLE_DELAY_MS,
    ensures
        forall|k: int|
            0 <= k < events.len() ==> (check_writes(events, #[trigger] checks[k]) <==> k
                == events.len() - 1),
        checks.last() >= events.last().at + SETTLE_DELAY_MS,
        size_at(events, checks.last()) == events.last().size,
{
    let n = events.len() as int;
    assert forall|k: int| 0 <= k < n implies (check_writes(events, #[trigger] checks[k]) <==> k
        == n - 1) by {
        let at = checks[k];
        let m = happened_by(events, at) as int;
        lemma_happened_by(events, at);
        assert(m > k) by {
            if m <= k {
                assert(events[k].at > at);
            }
        }
        lemma_check_writes_iff_quiet(events, at);
        if k < n - 1 {
            assert(gap_after(events, k) < SETTLE_DELAY_MS);
            assert(m > k + 1) by {
                if m <= k + 1 {
                    assert(events[k + 1].at > at);
                }
            }
            if m - 1 > k + 1 {
                assert(events[k + 1].at < events[m - 1].at);
            }
        }
    }
    lemma_happened_by(events, checks[n - 1]);
    assert(happened_by(events, checks[n - 1]) == n) by {
        if happened_by(events, checks[n - 1]) < n {
            assert(events[n - 1].at > checks[n - 1]);
        }
    }
}

/// Settled law. Of resize events that each come more than the quiet period
/// after the one before, with each check made before the next event, every
/// event's check writes, each the size that its own event left: as many
/// writes as events.
pub proof fn lemma_settled_events_each_write(events: Seq<ResizeEvent>, checks: Seq<int>)
    requires
        in_order(events),
        checks_not_early(events, checks),
        forall|i: int|
            0 <= i < events.len() - 1 ==> #[trigger] gap_after(events, i) > SETTLE_DELAY_MS,
        forall|i: int| 0 <= i < events.len() - 1 ==> #[trigger] checks[i] < events[i + 1].at,
    ensures
        forall|k: int|
            0 <= k < events.len() ==> check_writes(events, #[trigger] checks[k]) && size_at(
                events,
                checks[k],
            ) == events[k].size,
{
    let n = events.len() as int;
    assert forall|k: int| 0 <= k < n implies check_writes(events, #[trigger] checks[k])
        && size_at(events, checks[k]) == events[k].size by {
        let at = checks[k];
        let m = happened_by(events, at) as int;
        lemma_happened_by(events, at);
        assert(m == k + 1) by {
            if m <= k {
                assert(events[k].at > at);
            }
            if m > k + 1 {
                assert(events[k + 1].at <= at);
            }
        }
        lemma_check_writes_iff_quiet(events, at);
    }
}

} // verus!
