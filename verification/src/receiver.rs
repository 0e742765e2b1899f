//! Receivers: hit detection and the plotted waveform.
//!
//! A receiver catches a signal particle when the particle sits inside the
//! receiver's detection band — less than half a receiver-width above or below
//! the receiver's centre line, and not yet past its right edge.  Each hit
//! despawns the particle and plots one point of the received waveform: the
//! plot cursor sweeps right to left across the receiver at a fixed speed,
//! measured by the time between consecutive hits, and stops for good once it
//! has swept twice the receiver's width.

use vstd::prelude::*;
use crate::params::PLOT_LIMIT_MPX;
use crate::params::PLOT_SWEEP_MPX_PER_MS;
use crate::params::RECEIVER_BAND_MPX;
use crate::params::RECEIVER_WIDTH_MPX;

verus! {

/// Whether a particle at `(px, py)` is caught by a receiver centred at
/// `(rx_x, rx_y)`: strictly inside the detection band vertically and left of
/// the receiver's right edge.  All coordinates in milli-pixels.
pub open spec fn hit_detected(px: int, py: int, rx_x: int, rx_y: int) -> bool {
    py < rx_y + RECEIVER_BAND_MPX && py > rx_y - RECEIVER_BAND_MPX && px < rx_x
        + RECEIVER_WIDTH_MPX
}

/// Decide whether a particle at `(px, py)` hits a receiver centred at
/// `(rx_x, rx_y)`.
pub fn detect_hit(px: i64, py: i64, rx_x: i64, rx_y: i64) -> (hit: bool)
    ensures
        hit == hit_detected(px as int, py as int, rx_x as int, rx_y as int),
{
    let top: i128 = (rx_y as i128) + (RECEIVER_BAND_MPX as i128);
    let bottom: i128 = (rx_y as i128) - (RECEIVER_BAND_MPX as i128);
    let right: i128 = (rx_x as i128) + (RECEIVER_WIDTH_MPX as i128);
    (py as i128) < top && (py as i128) > bottom && (px as i128) < right
}

/// What a hit produced: one plotted point of the waveform, or nothing because
/// the plot has already swept its full range (the receiver then also stops
/// moving).
#[derive(Clone, Copy, PartialEq, Eq, Structural, Debug)]
pub enum HitOutcome {
    /// The plot is full; the hit particle is absorbed without a trace.
    Saturated,
    /// One point of the waveform, in the receiver's own coordinates.
    Plotted { plot_x_mpx: i64, plot_y_mpx: i64 },
}

/// Where the plot cursor ends up after a further run of hits at the given
/// times, starting at `cursor` with `prev` the time of the hit just before
/// the run: each hit advances the cursor by the sweep speed times the gap to
/// the hit before it.  Successive calls of `Receiver::record_hit` perform
/// exactly this recursion, one `cursor_after` step per hit.
pub open spec fn cursor_after_run(prev: int, cursor: int, hits: Seq<int>) -> int
    decreases hits.len(),
{
    if hits.len() == 0 {
        cursor
    } else {
        cursor_after_run(
            hits[0],
            cursor + PLOT_SWEEP_MPX_PER_MS * (hits[0] - prev),
            hits.drop_first(),
        )
    }
}

/// The telescoping law: a run of hits advances the plot cursor by the sweep
/// speed times the time from the hit before the run to the last hit of the
/// run — the gaps in between cancel out.  The plot abscissa therefore
/// encodes arrival time, which is what makes the plotted waveform show the
/// Doppler shift.
pub proof fn lemma_cursor_run_telescopes(prev: int, cursor: int, hits: Seq<int>)
    requires
        hits.len() > 0,
    ensures
        cursor_after_run(prev, cursor, hits) == cursor + PLOT_SWEEP_MPX_PER_MS * (
        hits.last() - prev),
    decreases hits.len(),
{
    if hits.len() == 1 {
        assert(hits.drop_first() =~= Seq::<int>::empty());
        assert(cursor_after_run(
            hits[0],
            cursor + PLOT_SWEEP_MPX_PER_MS * (hits[0] - prev),
            hits.drop_first(),
        ) == cursor + PLOT_SWEEP_MPX_PER_MS * (hits[0] - prev));
    } else {
        lemma_cursor_run_telescopes(
            hits[0],
            cursor + PLOT_SWEEP_MPX_PER_MS * (hits[0] - prev),
            hits.drop_first(),
        );
        assert(hits.drop_first().last() == hits.last());
    }
}

/// Per-receiver plotting state: the time of the most recent hit and how far
/// the plot cursor has swept, in milli-pixels.
pub struct Receiver {
    prev_hit_ms: Option<u64>,
    cursor_mpx: i64,
}

impl Receiver {
    /// The time of the most recent recorded hit, in milliseconds.
    pub closed spec fn prev_hit(self) -> Option<int> {
        match self.prev_hit_ms {
            Some(t) => Some(t as int),
            None => None,
        }
    }

    /// How far the plot cursor has swept, in milli-pixels.
    pub closed spec fn cursor(self) -> int {
        self.cursor_mpx as int
    }

    /// The cursor never runs backwards.
    pub open spec fn wf(self) -> bool {
        self.cursor() >= 0
    }

    /// The plot stops once the cursor has swept past twice the receiver's
    /// width.
    pub open spec fn saturated(self) -> bool {
        self.cursor() > PLOT_LIMIT_MPX
    }

    /// The reference time a hit at `t_ms` is measured against: the previous
    /// hit, or `t_ms` itself for the first hit ever recorded.
    pub open spec fn sweep_start(self, t_ms: int) -> int {
        match self.prev_hit() {
            Some(p) => p,
            None => t_ms,
        }
    }

    /// Where the cursor stands after recording a hit at `t_ms`: advanced by
    /// the sweep speed times the time since the previous hit.
    pub open spec fn cursor_after(self, t_ms: int) -> int {
        self.cursor() + PLOT_SWEEP_MPX_PER_MS * (t_ms - self.sweep_start(t_ms))
    }

    /// The time of the most recent recorded hit, in milliseconds.
    pub fn last_hit_ms(&self) -> (t: Option<u64>)
        ensures
            t matches Some(p) ==> self.prev_hit() == Some(p as int),
            t is None ==> self.prev_hit() is None,
    {
        self.prev_hit_ms
    }

    /// How far the plot cursor has swept, in milli-pixels.
    pub fn cursor_millipixels(&self) -> (c: i64)
        ensures
            c == self.cursor(),
    {
        self.cursor_mpx
    }

    /// A fresh receiver: nothing plotted yet.
    pub fn new() -> (r: Self)
        ensures
            r.wf(),
            r.prev_hit() is None,
            r.cursor() == 0,
    {
        Receiver { prev_hit_ms: None, cursor_mpx: 0 }
    }

    /// Record a hit by a particle whose height was `y_mpx`, at time `t_ms`.
    ///
    /// If the plot is already saturated the receiver is left untouched and
    /// the caller is told to stop moving it.  Otherwise the point is plotted
    /// at the current cursor position, measured from the receiver's right
    /// edge, and the cursor advances by the sweep speed times the time since
    /// the previous hit (a first hit leaves the cursor in place).
    pub fn record_hit(&mut self, t_ms: u64, y_mpx: i64) -> (out: HitOutcome)
        requires
            old(self).wf(),
            old(self).prev_hit() matches Some(p) ==> p <= t_ms,
            !old(self).saturated() ==> old(self).cursor_after(t_ms as int) <= i64::MAX,
        ensures
            final(self).wf(),
            old(self).saturated() ==> out == HitOutcome::Saturated && *final(self) == *old(
                self,
            ),
            !old(self).saturated() ==> out == (HitOutcome::Plotted {
                plot_x_mpx: (RECEIVER_WIDTH_MPX - old(self).cursor()) as i64,
                plot_y_mpx: y_mpx,
            }),
            !old(self).saturated() ==> final(self).cursor() == old(self).cursor_after(
                t_ms as int,
            ),
            !old(self).saturated() ==> final(self).prev_hit() == Some(t_ms as int),
    {
        if self.cursor_mpx > PLOT_LIMIT_MPX {
            return HitOutcome::Saturated;
        }
        let plot_x: i64 = RECEIVER_WIDTH_MPX - self.cursor_mpx;
        let since: u64 = match self.prev_hit_ms {
            Some(p) => t_ms - p,
            None => 0,
        };
        let advanced: i128 = (self.cursor_mpx as i128) + (PLOT_SWEEP_MPX_PER_MS as i128) * (
        since as i128);
        self.cursor_mpx = advanced as i64;
        self.prev_hit_ms = Some(t_ms);
        HitOutcome::Plotted { plot_x_mpx: plot_x, plot_y_mpx: y_mpx }
    }
}

} // verus!
