//! The re-announcement timer.

use vstd::prelude::*;

verus! {

/// Clock units in one second: readings of the monotonic clock are nanoseconds.
pub const UNITS_PER_SECOND: u64 = 1_000_000_000;

/// Time that has passed between two readings of a monotonic clock; a reading
/// that lies before the earlier one counts as no time at all.
pub open spec fn elapsed(since: u64, now: u64) -> int {
    if now >= since {
        now - since
    } else {
        0
    }
}

/// Decides when the self-announcement is due again.
#[derive(Clone, Copy, Debug)]
pub struct Scheduler {
    /// Clock units between two announcements.
    pub interval: u64,
    /// Clock reading at the last announcement.
    pub last_publish: u64,
}

impl Scheduler {
    /// Whether an announcement is due at the reading `now`.
    pub open spec fn due_at(self, now: u64) -> bool {
        elapsed(self.last_publish, now) >= self.interval
    }

    /// The timer for one announcement every `interval_secs` seconds, when the
    /// last one went out at the reading `now`.
    pub open spec fn spec_new(interval_secs: u16, now: u64) -> Scheduler {
        Scheduler { interval: (interval_secs * UNITS_PER_SECOND) as u64, last_publish: now }
    }

    /// A timer for one announcement every `interval_secs` seconds, started at
    /// the reading `now`, when the first announcement went out.
    pub fn new(interval_secs: u16, now: u64) -> (s: Scheduler)
        ensures
            s == Scheduler::spec_new(interval_secs, now),
            s.interval == interval_secs * UNITS_PER_SECOND,
    {
        let secs: u64 = interval_secs.into();
        Scheduler { interval: secs * UNITS_PER_SECOND, last_publish: now }
    }

    /// The timer after a tick at the reading `now`: restarted at `now` when
    /// the announcement is due, else unchanged.
    pub open spec fn ticked(self, now: u64) -> Scheduler {
        if self.due_at(now) {
            Scheduler { interval: self.interval, last_publish: now }
        } else {
            self
        }
    }

    /// One tick at the reading `now`: reports whether the announcement is due,
    /// and restarts the timer at `now` when it is.
    pub fn tick(&mut self, now: u64) -> (due: bool)
        ensures
            due == old(self).due_at(now),
            *final(self) == old(self).ticked(now),
    {
        let passed: u64 = if now >= self.last_publish { now - self.last_publish } else { 0 };
        if passed >= self.interval {
            self.last_publish = now;
            true
        } else {
            false
        }
    }
}

/// The cadence of the announcements: before the interval has passed since
/// the last one, a tick announces nothing and changes nothing; once it has
/// passed, a tick announces and restarts the timer; and after that tick no
/// other announces before the interval has passed again.
pub proof fn lemma_cadence(s: Scheduler, now: u64, later: u64)
    ensures
        elapsed(s.last_publish, now) < s.interval ==> !s.due_at(now) && s.ticked(now) == s,
        elapsed(s.last_publish, now) >= s.interval ==> s.due_at(now) && s.ticked(now)
            == (Scheduler { interval: s.interval, last_publish: now }),
        s.due_at(now) && elapsed(now, later) < s.interval ==> !s.ticked(now).due_at(later),
        s.due_at(now) && elapsed(now, later) >= s.interval ==> s.ticked(now).due_at(later),
{
}

/// Whether the polling is worth a line in the log again: every `every_secs`
/// seconds, counted in whole seconds since the last such line at the reading
/// `last`; never when `every_secs` is zero.
pub open spec fn reveal_due(every_secs: u64, last: u64, now: u64) -> bool {
    every_secs > 0 && elapsed(last, now) / (UNITS_PER_SECOND as int) >= every_secs
}

/// Decides whether the polling is logged visibly at the reading `now`, when it
/// last was at the reading `last`.
pub fn trace_reveal_due(every_secs: u64, last: u64, now: u64) -> (due: bool)
    ensures
        due == reveal_due(every_secs, last, now),
{
    let passed: u64 = if now >= last {
        now - last
    } else {
        0
    };
    every_secs > 0 && passed / UNITS_PER_SECOND >= every_secs
}

} // verus!
