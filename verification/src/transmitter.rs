//! Transmitters: periodic emission of signal particles.
//!
//! A transmitter carries a repeating spawn clock; every frame the clock
//! advances by the frame's duration, and whenever it fires the transmitter
//! emits one particle at its spawn point, with the fixed speed, amplitude and
//! frequency of the simulation.

use vstd::prelude::*;
use crate::params::PARTICLE_AMPLITUDE_MPX;
use crate::params::PARTICLE_FREQUENCY_MHZ;
use crate::params::PARTICLE_SPAWN_PERIOD_MS;
use crate::params::PARTICLE_SPEED_MPX_PER_MS;
use crate::timer::RepeatTimer;

verus! {

/// Everything needed to launch one signal particle: where it starts, in the
/// transmitter's own coordinates, and the wave parameters it carries.
#[derive(Clone, Copy, PartialEq, Eq, Structural, Debug)]
pub struct ParticleSeed {
    pub x_mpx: i64,
    pub y_mpx: i64,
    pub speed_mpx_per_ms: i64,
    pub amplitude_mpx: i64,
    pub frequency_mhz: i64,
}

/// A transmitter: a spawn point and the clock that paces emission.
pub struct Transmitter {
    spawn_x_mpx: i64,
    spawn_y_mpx: i64,
    spawn_clock: RepeatTimer,
}

impl Transmitter {
    /// The point, in the transmitter's own coordinates, where its particles
    /// appear.
    pub closed spec fn spawn_point(self) -> (int, int) {
        (self.spawn_x_mpx as int, self.spawn_y_mpx as int)
    }

    /// The clock that paces particle emission.
    pub closed spec fn clock(self) -> RepeatTimer {
        self.spawn_clock
    }

    /// The spawn clock runs at the fixed particle spawn period.
    pub open spec fn wf(self) -> bool {
        self.clock().wf() && self.clock().period() == PARTICLE_SPAWN_PERIOD_MS
    }

    /// The particle this transmitter emits whenever its clock fires.
    pub open spec fn seed(self) -> ParticleSeed {
        ParticleSeed {
            x_mpx: self.spawn_point().0 as i64,
            y_mpx: self.spawn_point().1 as i64,
            speed_mpx_per_ms: PARTICLE_SPEED_MPX_PER_MS,
            amplitude_mpx: PARTICLE_AMPLITUDE_MPX,
            frequency_mhz: PARTICLE_FREQUENCY_MHZ,
        }
    }

    /// A fresh transmitter spawning at `(x_mpx, y_mpx)`, its clock at zero.
    pub fn new(x_mpx: i64, y_mpx: i64) -> (t: Self)
        ensures
            t.wf(),
            t.spawn_point() == (x_mpx as int, y_mpx as int),
            t.clock().elapsed() == 0,
    {
        Transmitter { spawn_x_mpx: x_mpx, spawn_y_mpx: y_mpx, spawn_clock: RepeatTimer::new(
            PARTICLE_SPAWN_PERIOD_MS,
        ) }
    }

    /// Advance the spawn clock by one frame of `delta_ms` milliseconds.
    /// Returns the seed of a new particle exactly when the clock fired.
    pub fn frame(&mut self, delta_ms: u64) -> (emitted: Option<ParticleSeed>)
        requires
            old(self).wf(),
        ensures
            final(self).wf(),
            final(self).spawn_point() == old(self).spawn_point(),
            final(self).clock().elapsed() == (old(self).clock().elapsed() + delta_ms) % old(
                self,
            ).clock().period(),
            emitted == (if old(self).clock().elapsed() + delta_ms
                >= PARTICLE_SPAWN_PERIOD_MS {
                Some(old(self).seed())
            } else {
                None::<ParticleSeed>
            }),
    {
        let fired: bool = self.spawn_clock.tick(delta_ms);
        if fired {
            Some(ParticleSeed {
                x_mpx: self.spawn_x_mpx,
                y_mpx: self.spawn_y_mpx,
                speed_mpx_per_ms: PARTICLE_SPEED_MPX_PER_MS,
                amplitude_mpx: PARTICLE_AMPLITUDE_MPX,
                frequency_mhz: PARTICLE_FREQUENCY_MHZ,
            })
        } else {
            None
        }
    }
}

} // verus!
