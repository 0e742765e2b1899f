//! Core logic of a small wave-propagation and Doppler-effect simulation.
//!
//! Transmitters periodically emit signal particles, particles travel
//! horizontally while oscillating vertically, and receivers detect particle
//! hits and accumulate a plotted waveform.  Everything here works on exact
//! integer quantities: time is measured in whole milliseconds and lengths in
//! milli-pixels (one thousandth of a pixel), units in which every parameter of
//! the simulation is a whole number.  The engine front end converts to and
//! from its own floating-point coordinates at the boundary.

pub mod capture;
pub mod motion;
pub mod params;
pub mod receiver;
pub mod reset;
pub mod scene;
pub mod timer;
pub mod transmitter;
