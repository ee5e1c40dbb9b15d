use vstd::prelude::*;

verus! {

/// `a + b`, held at `u64::MAX`.
pub open spec fn sat_add(a: u64, b: u64) -> u64 {
    if a + b > u64::MAX {
        u64::MAX
    } else {
        (a + b) as u64
    }
}

/// A fixed-rate schedule on a clock counted in nanoseconds: one event falls due each
/// period, whatever the pace at which the schedule is polled.
#[derive(Clone, Copy, Debug, PartialEq, Eq, Structural)]
pub struct Pacer {
    pub period: u64,
    /// When the next event falls due.
    pub next: u64,
}

impl Pacer {
    /// A schedule whose first event falls due one period after `start`.
    pub fn new(start: u64, period: u64) -> (r: Pacer)
        ensures
            r.period == period,
            r.next == sat_add(start, period),
    {
        Pacer { period, next: start.saturating_add(period) }
    }

    /// Whether an event is due at `now`. A due event is counted as done, and the next
    /// one falls due a period after it, so that late polls catch up.
    pub fn poll(&mut self, now: u64) -> (r: bool)
        ensures
            r == (now >= old(self).next),
            r ==> final(self).next == sat_add(old(self).next, old(self).period),
            !r ==> final(self).next == old(self).next,
            final(self).period == old(self).period,
    {
        if now >= self.next {
            self.next = self.next.saturating_add(self.period);
            true
        } else {
            false
        }
    }

    /// How long from `now` until the next event falls due; zero once it is due.
    pub fn wait(&self, now: u64) -> (r: u64)
        ensures
            r == (if now >= self.next { 0 } else { (self.next - now) as u64 }),
    {
        if now >= self.next {
            0
        } else {
            self.next - now
        }
    }
}

} // verus!
