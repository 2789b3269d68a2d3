use crate::ConfigError;
use vstd::prelude::*;

verus! {

/// Accumulates elapsed time and fires an advance event each time a fixed
/// interval has passed; pausing freezes the accumulated time.
#[derive(Clone, Copy, Debug, PartialEq, Eq, Structural)]
pub struct FrameTimer {
    /// Time between two advance events, in milliseconds; positive.
    pub interval_ms: u64,
    /// Time accumulated towards the next advance event, in milliseconds.
    pub elapsed_ms: u64,
    pub paused: bool,
}

impl FrameTimer {
    pub open spec fn wf(&self) -> bool {
        self.interval_ms > 0
    }

    /// Timer after `tick(dt_ms)`, together with whether it fired.
    pub open spec fn tick_spec(self, dt_ms: u32) -> (FrameTimer, bool) {
        if self.paused {
            (self, false)
        } else {
            let e = self.elapsed_ms + dt_ms;
            if e >= self.interval_ms {
                (FrameTimer { elapsed_ms: (e - self.interval_ms) as u64, ..self }, true)
            } else {
                (FrameTimer { elapsed_ms: e as u64, ..self }, false)
            }
        }
    }

    /// Whether `tick(dt_ms)` cannot overflow the accumulated time.
    pub open spec fn tick_fits(self, dt_ms: u32) -> bool {
        self.elapsed_ms + dt_ms <= u64::MAX
    }

    /// A running timer with nothing accumulated; a zero interval is refused.
    pub fn new(interval_ms: u64) -> (r: Result<FrameTimer, ConfigError>)
        ensures
            interval_ms > 0 <==> r is Ok,
            r is Ok ==> r->Ok_0 == (FrameTimer { interval_ms, elapsed_ms: 0, paused: false }),
            r is Err ==> r->Err_0 == ConfigError::ZeroInterval,
    {
        if interval_ms > 0 {
            Ok(FrameTimer { interval_ms, elapsed_ms: 0, paused: false })
        } else {
            Err(ConfigError::ZeroInterval)
        }
    }

    /// Advances the timer by `dt_ms` unless it is paused. Returns whether an
    /// advance event fired; when one fires the interval is taken off the
    /// accumulated time and the remainder is kept.
    pub fn tick(&mut self, dt_ms: u32) -> (fired: bool)
        requires
            old(self).wf(),
            old(self).tick_fits(dt_ms),
        ensures
            (*final(self), fired) == old(self).tick_spec(dt_ms),
            final(self).wf(),
            final(self).interval_ms == old(self).interval_ms,
            final(self).paused == old(self).paused,
            old(self).paused ==> !fired && *final(self) == *old(self),
    {
        if self.paused {
            return false;
        }
        let e = self.elapsed_ms + dt_ms as u64;
        if e >= self.interval_ms {
            self.elapsed_ms = e - self.interval_ms;
            true
        } else {
            self.elapsed_ms = e;
            false
        }
    }

    /// Stops accumulating time; what was accumulated is kept.
    pub fn pause(&mut self)
        ensures
            *final(self) == (FrameTimer { paused: true, ..*old(self) }),
    {
        self.paused = true;
    }

    /// Resumes accumulating time from what was accumulated before.
    pub fn unpause(&mut self)
        ensures
            *final(self) == (FrameTimer { paused: false, ..*old(self) }),
    {
        self.paused = false;
    }

    /// Discards the accumulated time.
    pub fn reset(&mut self)
        ensures
            *final(self) == (FrameTimer { elapsed_ms: 0, ..*old(self) }),
    {
        self.elapsed_ms = 0;
    }
}

} // verus!
