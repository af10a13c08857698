//! A one-shot countdown timer over nanoseconds.
use vstd::prelude::*;

verus! {

/// Counts elapsed time up to `duration`, then stays finished until reset.
#[derive(Clone, Copy, Debug, PartialEq, Eq, Structural)]
pub struct Timer {
    pub duration: u64,
    pub elapsed: u64,
    pub finished: bool,
}

impl Timer {
    /// Elapsed time never passes the duration, and the timer is finished exactly when
    /// the elapsed time has reached the duration.
    pub open spec fn wf(self) -> bool {
        &&& self.elapsed <= self.duration
        &&& self.finished <==> self.elapsed == self.duration
    }

    /// A timer that starts counting towards `duration` now; one of zero duration has
    /// already run out.
    pub open spec fn started(duration: u64) -> Timer {
        Timer { duration, elapsed: 0, finished: duration == 0 }
    }

    /// The timer after `delta` more nanoseconds: once finished it no longer moves;
    /// otherwise elapsed time grows, and on reaching the duration it is clamped there
    /// and the timer is finished.
    pub open spec fn ticked(self, delta: nat) -> Timer {
        if self.finished {
            self
        } else if self.elapsed + delta >= self.duration {
            Timer { elapsed: self.duration, finished: true, ..self }
        } else {
            Timer { elapsed: (self.elapsed + delta) as u64, ..self }
        }
    }

    pub open spec fn restarted(self) -> Timer {
        Timer::started(self.duration)
    }

    /// A timer that has just started counting towards `duration`.
    pub fn new(duration: u64) -> (r: Timer)
        ensures
            r == Timer::started(duration),
            r.wf(),
    {
        Timer { duration, elapsed: 0, finished: duration == 0 }
    }

    /// A timer that has already run its full `duration`.
    pub fn new_finished(duration: u64) -> (r: Timer)
        ensures
            r == (Timer { duration, elapsed: duration, finished: true }),
            r.wf(),
    {
        Timer { duration, elapsed: duration, finished: true }
    }

    pub fn tick(&mut self, delta: u64)
        requires
            old(self).wf(),
        ensures
            *final(self) == old(self).ticked(delta as nat),
            final(self).wf(),
    {
        if !self.finished {
            if delta >= self.duration - self.elapsed {
                self.elapsed = self.duration;
                self.finished = true;
            } else {
                self.elapsed = self.elapsed + delta;
            }
        }
    }

    pub fn reset(&mut self)
        ensures
            *final(self) == old(self).restarted(),
            final(self).wf(),
    {
        self.elapsed = 0;
        self.finished = self.duration == 0;
    }

    pub fn finished(&self) -> (r: bool)
        requires
            self.wf(),
        ensures
            r == self.finished,
            r == (self.elapsed >= self.duration),
    {
        self.finished
    }

    pub fn elapsed(&self) -> (r: u64)
        ensures
            r == self.elapsed,
    {
        self.elapsed
    }

    pub fn duration(&self) -> (r: u64)
        ensures
            r == self.duration,
    {
        self.duration
    }
}

} // verus!
