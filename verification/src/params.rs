//! The fixed parameters of the simulation.
//!
//! Lengths are in milli-pixels (one thousandth of a pixel) and times in
//! milliseconds, so every parameter below is a whole number: a particle moves
//! 200 pixels per second, i.e. 200 milli-pixels per millisecond, a receiver
//! 100, and the receiver's plot sweeps twice its width per wave period.

use vstd::prelude::*;

verus! {

/// Peak vertical displacement of a signal particle: 50 pixels.
pub const PARTICLE_AMPLITUDE_MPX: i64 = 50_000;

/// Radius of a signal particle: 5 pixels.
pub const PARTICLE_RADIUS_MPX: i64 = 5_000;

/// Horizontal speed of a signal particle, in milli-pixels per millisecond.
/// Negative: particles travel from the transmitter towards the left.
pub const PARTICLE_SPEED_MPX_PER_MS: i64 = -200;

/// Oscillation frequency of a signal particle: 2 Hz, kept in millihertz.
pub const PARTICLE_FREQUENCY_MHZ: i64 = 2_000;

/// A transmitter emits one particle every 10 milliseconds.
pub const PARTICLE_SPAWN_PERIOD_MS: u64 = 10;

/// Width of a receiver: one full peak-to-peak swing plus one particle
/// diameter, so every oscillating particle that reaches it is caught.
pub const RECEIVER_WIDTH_MPX: i64 = 2 * PARTICLE_AMPLITUDE_MPX + 2 * PARTICLE_RADIUS_MPX;

/// Height of a receiver: twice its width.
pub const RECEIVER_HEIGHT_MPX: i64 = 2 * RECEIVER_WIDTH_MPX;

/// Half-height of the detection band around a receiver's centre line:
/// a quarter of the receiver's height, i.e. half its width.
pub const RECEIVER_BAND_MPX: i64 = PARTICLE_AMPLITUDE_MPX + PARTICLE_RADIUS_MPX;

/// Horizontal speed of a moving receiver, in milli-pixels per millisecond.
pub const RECEIVER_SPEED_MPX_PER_MS: i64 = 100;

/// Sweep speed of a receiver's plot cursor, in milli-pixels per millisecond:
/// the plot crosses twice the receiver's width (220 000 milli-pixels) in one
/// sweep that lasts two wave periods (1 000 milliseconds).
pub const PLOT_SWEEP_MPX_PER_MS: i64 = 220;

/// The plot stops once its cursor has swept twice the receiver's width.
pub const PLOT_LIMIT_MPX: i64 = 2 * RECEIVER_WIDTH_MPX;

/// The whole scene is rebuilt every 10 seconds.
pub const RESET_PERIOD_MS: u64 = 10_000;

/// At most this many frames are captured to disk in one recording.
pub const CAPTURE_LIMIT: u32 = 500;

/// Width of the in-game canvas, in pixels.
pub const CANVAS_WIDTH_PX: u32 = 1280;

/// Height of the in-game canvas, in pixels.
pub const CANVAS_HEIGHT_PX: u32 = 720;

} // verus!
