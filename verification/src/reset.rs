//! Scene resets: manual and periodic.
//!
//! The scene is torn down and rebuilt either when the reset key is pressed or
//! when ten seconds have passed since the last key-driven reset.  A key press
//! restarts the countdown; the countdown firing does not, beyond the wrap
//! that every repeating timer performs.

use vstd::prelude::*;
use crate::params::RESET_PERIOD_MS;
use crate::timer::RepeatTimer;

verus! {

/// The countdown that paces periodic scene rebuilds.
pub struct ResetSchedule {
    countdown: RepeatTimer,
}

impl ResetSchedule {
    /// The countdown timer itself.
    pub closed spec fn countdown(self) -> RepeatTimer {
        self.countdown
    }

    /// The countdown runs at the fixed reset period.
    pub open spec fn wf(self) -> bool {
        self.countdown().wf() && self.countdown().period() == RESET_PERIOD_MS
    }

    /// A fresh schedule with a full countdown ahead of it.
    pub fn new() -> (s: Self)
        ensures
            s.wf(),
            s.countdown().elapsed() == 0,
    {
        ResetSchedule { countdown: RepeatTimer::new(RESET_PERIOD_MS) }
    }

    /// Handle the reset key for one frame.  Returns whether the scene must be
    /// rebuilt: exactly when the key is down, which also restarts the
    /// countdown.
    pub fn key_frame(&mut self, reset_pressed: bool) -> (rebuild: bool)
        requires
            old(self).wf(),
        ensures
            final(self).wf(),
            rebuild == reset_pressed,
            reset_pressed ==> final(self).countdown().elapsed() == 0,
            !reset_pressed ==> *final(self) == *old(self),
    {
        if reset_pressed {
            self.countdown.reset();
            true
        } else {
            false
        }
    }

    /// Advance the countdown by one frame of `delta_ms` milliseconds.
    /// Returns whether the scene must be rebuilt: exactly when the countdown
    /// ran out during this frame.
    pub fn timed_frame(&mut self, delta_ms: u64) -> (rebuild: bool)
        requires
            old(self).wf(),
        ensures
            final(self).wf(),
            rebuild == (old(self).countdown().elapsed() + delta_ms >= RESET_PERIOD_MS),
            final(self).countdown().elapsed() == (old(self).countdown().elapsed() + delta_ms)
                % (RESET_PERIOD_MS as int),
    {
        self.countdown.tick(delta_ms)
    }
}

} // verus!
