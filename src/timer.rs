//! A one-shot countdown clock advanced by elapsed time.

use vstd::prelude::*;

verus! {

/// A one-shot countdown: it finishes once `elapsed_us` reaches `duration_us`,
/// and stays finished until reset. While paused, ticks leave it unchanged.
#[derive(Clone, Copy, Debug, PartialEq, Eq, Structural)]
pub struct Timer {
    pub duration_us: u64,
    pub elapsed_us: u64,
    pub paused: bool,
}

impl Timer {
    pub open spec fn wf(self) -> bool {
        self.elapsed_us <= self.duration_us
    }

    pub open spec fn is_finished(self) -> bool {
        self.elapsed_us >= self.duration_us
    }

    /// The timer after `dt_us` microseconds; elapsed time stops at the duration.
    pub open spec fn ticked(self, dt_us: int) -> Timer {
        if self.paused {
            self
        } else if self.elapsed_us + dt_us >= self.duration_us {
            Timer { elapsed_us: self.duration_us, ..self }
        } else {
            Timer { elapsed_us: (self.elapsed_us + dt_us) as u64, ..self }
        }
    }

    pub open spec fn restarted(self) -> Timer {
        Timer { elapsed_us: 0, ..self }
    }

    /// A running timer with nothing elapsed.
    pub fn new(duration_us: u64) -> (t: Timer)
        ensures
            t == (Timer { duration_us, elapsed_us: 0, paused: false }),
            t.wf(),
    {
        Timer { duration_us, elapsed_us: 0, paused: false }
    }

    /// A running timer that has already run its course.
    pub fn new_finished(duration_us: u64) -> (t: Timer)
        ensures
            t == (Timer { duration_us, elapsed_us: duration_us, paused: false }),
            t.wf(),
            t.is_finished(),
    {
        Timer { duration_us, elapsed_us: duration_us, paused: false }
    }

    pub fn finished(&self) -> (r: bool)
        ensures
            r == self.is_finished(),
    {
        self.elapsed_us >= self.duration_us
    }

    pub fn tick(&mut self, dt_us: u64)
        requires
            old(self).wf(),
        ensures
            *final(self) == old(self).ticked(dt_us as int),
            final(self).wf(),
    {
        if !self.paused {
            if self.duration_us - self.elapsed_us <= dt_us {
                self.elapsed_us = self.duration_us;
            } else {
                self.elapsed_us = self.elapsed_us + dt_us;
            }
        }
    }

    pub fn reset(&mut self)
        ensures
            *final(self) == old(self).restarted(),
            final(self).wf(),
    {
        self.elapsed_us = 0;
    }

    pub fn pause(&mut self)
        ensures
            *final(self) == (Timer { paused: true, ..*old(self) }),
    {
        self.paused = true;
    }

    pub fn unpause(&mut self)
        ensures
            *final(self) == (Timer { paused: false, ..*old(self) }),
    {
        self.paused = false;
    }
}

} // verus!
