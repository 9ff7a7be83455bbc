//! A periodic square-wave signal source.

use crate::pin::Pin;
use vstd::prelude::*;

verus! {

/// What a running clock does next.
#[derive(Clone, Copy, Debug, PartialEq, Eq, Structural)]
pub enum ClockStep {
    /// Sleep this many nanoseconds, then ask again.
    Sleep(u64),
    /// A half period is over: toggle the output.
    Toggle,
    /// A half period is over and a stop was asked for: stop.
    Stop,
}

/// Where a running clock stands: the time of its next tick, in nanoseconds
/// since it started, and the ticks counted so far.
#[derive(Clone, Copy, Debug, PartialEq, Eq, Structural)]
pub struct ClockSchedule {
    pub next_tick: u64,
    pub ticks: u64,
}

/// A clock toggling its output pin every half period.
pub struct Clock {
    interval_nanos: u64,
    output: Pin<bool>,
}

impl Clock {
    pub closed spec fn spec_interval(&self) -> u64 {
        self.interval_nanos
    }

    pub closed spec fn spec_output(&self) -> Pin<bool> {
        self.output
    }

    /// A clock of `ticks_per_second` full periods per second, output low.
    pub fn new(ticks_per_second: u64) -> (r: Clock)
        requires
            ticks_per_second > 0,
        ensures
            r.spec_interval() == 1_000_000_000u64 / ticks_per_second / 2,
            r.spec_output() is Unconnected,
            r.spec_output().latched() == false,
    {
        Clock { interval_nanos: 1_000_000_000 / ticks_per_second / 2, output: Pin::new(false) }
    }

    /// The half period, in nanoseconds.
    pub fn interval_nanos(&self) -> (r: u64)
        ensures
            r == self.spec_interval(),
    {
        self.interval_nanos
    }

    /// Whether the output is high.
    pub fn state(&self) -> (r: bool)
        ensures
            r == self.spec_output().latched(),
    {
        self.output.value()
    }

    pub fn output(&mut self) -> (r: &mut Pin<bool>)
        ensures
            *r == old(self).spec_output(),
            final(self).spec_output() == *final(r),
            final(self).spec_interval() == old(self).spec_interval(),
    {
        &mut self.output
    }

    /// The schedule at start: the first tick one half period in, none counted.
    pub fn first_schedule(&self) -> (r: ClockSchedule)
        ensures
            r.next_tick == self.spec_interval(),
            r.ticks == 0,
    {
        ClockSchedule { next_tick: self.interval_nanos, ticks: 0 }
    }

    /// Decides the next move at time `now` (nanoseconds since start). Before
    /// the tick is due, sleep until it. Once it is due, count it and move the
    /// deadline on by one half period from where it was, so that oversleeping
    /// is absorbed by later ticks instead of adding up; then stop if asked
    /// to, else toggle.
    pub fn schedule(&self, s: ClockSchedule, now: u64, stop: bool) -> (r: (ClockSchedule, ClockStep))
        requires
            s.next_tick + self.spec_interval() <= u64::MAX,
            s.ticks < u64::MAX,
        ensures
            now < s.next_tick ==> r == (s, ClockStep::Sleep((s.next_tick - now) as u64)),
            now >= s.next_tick ==> r.0 == (ClockSchedule {
                next_tick: (s.next_tick + self.spec_interval()) as u64,
                ticks: (s.ticks + 1) as u64,
            }),
            now >= s.next_tick ==> r.1 == (if stop {
                ClockStep::Stop
            } else {
                ClockStep::Toggle
            }),
    {
        if now < s.next_tick {
            (s, ClockStep::Sleep(s.next_tick - now))
        } else {
            let next = ClockSchedule {
                next_tick: s.next_tick + self.interval_nanos,
                ticks: s.ticks + 1,
            };
            if stop {
                (next, ClockStep::Stop)
            } else {
                (next, ClockStep::Toggle)
            }
        }
    }

    /// Toggles the output.
    pub fn tick(&mut self)
        requires
            !(old(self).spec_output() is Input),
        ensures
            final(self).spec_output().latched() == !old(self).spec_output().latched(),
            final(self).spec_output() is Output <==> old(self).spec_output() is Output,
            !(final(self).spec_output() is Input),
            final(self).spec_interval() == old(self).spec_interval(),
    {
        let v = self.output.value();
        self.output.update(!v);
    }
}

} // verus!
