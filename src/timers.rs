use vstd::prelude::*;

verus! {

/// Nanoseconds between two ticks of the 60 Hz timer clock.
pub const TIMER_PERIOD_NS: u64 = 1_000_000_000 / 60;

/// The delay timer DT and the sound timer ST. Each counts down by one per tick of the
/// 60 Hz clock and stops at zero.
#[derive(Clone, Copy, Debug, PartialEq, Eq, Structural)]
pub struct Timers {
    pub delay: u8,
    pub sound: u8,
}

/// One tick of a counter: down by one, never below zero.
pub open spec fn count_down(t: u8) -> u8 {
    if t > 0 {
        (t - 1) as u8
    } else {
        0
    }
}

/// A counter after `n` ticks.
pub open spec fn count_down_n(t: u8, n: nat) -> u8
    decreases n,
{
    if n == 0 {
        t
    } else {
        count_down(count_down_n(t, (n - 1) as nat))
    }
}

impl Timers {
    /// Both timers at zero.
    pub fn new() -> (r: Timers)
        ensures
            r.delay == 0,
            r.sound == 0,
    {
        Timers { delay: 0, sound: 0 }
    }

    /// One tick of the 60 Hz clock.
    pub fn tick(&mut self)
        ensures
            final(self).delay == count_down(old(self).delay),
            final(self).sound == count_down(old(self).sound),
    {
        if self.delay > 0 {
            self.delay = self.delay - 1;
        }
        if self.sound > 0 {
            self.sound = self.sound - 1;
        }
    }

    /// Whether the tone should sound: while the sound timer is above zero.
    pub fn sound_active(&self) -> (r: bool)
        ensures
            r == (self.sound > 0),
    {
        self.sound > 0
    }
}

/// After `n` ticks a counter that started at `t` stands at `t - n`, or at zero once
/// `n` reaches `t`; further ticks leave it at zero.
pub proof fn law_timer_count_down(t: u8, n: nat)
    ensures
        count_down_n(t, n) == (if n >= t { 0 } else { (t - n) as u8 }),
    decreases n,
{
    if n > 0 {
        law_timer_count_down(t, (n - 1) as nat);
    }
}

} // verus!
