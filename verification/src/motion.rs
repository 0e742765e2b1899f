//! Motion of particles and receivers.
//!
//! A signal particle moves horizontally at a constant speed; its position is
//! advanced once per frame by the frame's duration.  The closed-form law —
//! after any sequence of frames the particle stands at
//! `x0 + v * (total elapsed time)` — is stated and proved here.  A receiver
//! moves left, right, or not at all, at the fixed receiver speed.

use vstd::prelude::*;
use crate::params::RECEIVER_SPEED_MPX_PER_MS;

verus! {

use vstd::arithmetic::mul::lemma_mul_is_distributive_add;
use crate::timer::lemma_total_ms_push;
use crate::timer::lemma_total_ms_take_le;
use crate::timer::total_ms;

/// Which way a receiver travels.
#[derive(Clone, Copy, PartialEq, Eq, Structural, Debug)]
pub enum Movement {
    Left,
    Right,
    Stationary,
}

impl Movement {
    /// The sign of the horizontal velocity: -1 left, 1 right, 0 at rest.
    pub open spec fn direction(self) -> int {
        match self {
            Movement::Left => -1,
            Movement::Right => 1,
            Movement::Stationary => 0,
        }
    }

    /// The sign of the horizontal velocity as a machine integer.
    pub fn direction_sign(&self) -> (d: i64)
        ensures
            d == self.direction(),
    {
        match self {
            Movement::Left => -1,
            Movement::Right => 1,
            Movement::Stationary => 0,
        }
    }
}

/// Where a receiver at `x` stands after a frame of `delta_ms` milliseconds
/// of travel in direction `m`, in milli-pixels.
pub open spec fn receiver_x_after(x: int, m: Movement, delta_ms: int) -> int {
    x + m.direction() * RECEIVER_SPEED_MPX_PER_MS * delta_ms
}

/// Advance a receiver's x-position by one frame of movement.
pub fn receiver_step(x: i64, m: &Movement, delta_ms: u64) -> (nx: i64)
    requires
        i64::MIN <= receiver_x_after(x as int, *m, delta_ms as int),
        receiver_x_after(x as int, *m, delta_ms as int) <= i64::MAX,
    ensures
        nx == receiver_x_after(x as int, *m, delta_ms as int),
{
    let step: i128 = (RECEIVER_SPEED_MPX_PER_MS as i128) * (delta_ms as i128);
    let moved: i128 = match m {
        Movement::Left => {
            proof {
                assert(m.direction() * RECEIVER_SPEED_MPX_PER_MS * delta_ms
                    == -(RECEIVER_SPEED_MPX_PER_MS * delta_ms)) by (nonlinear_arith)
                    requires
                        m.direction() == -1,
                ;
            }
            (x as i128) - step
        },
        Movement::Right => {
            proof {
                assert(m.direction() * RECEIVER_SPEED_MPX_PER_MS * delta_ms
                    == RECEIVER_SPEED_MPX_PER_MS * delta_ms) by (nonlinear_arith)
                    requires
                        m.direction() == 1,
                ;
            }
            (x as i128) + step
        },
        Movement::Stationary => {
            proof {
                assert(m.direction() * RECEIVER_SPEED_MPX_PER_MS * delta_ms == 0)
                    by (nonlinear_arith)
                    requires
                        m.direction() == 0,
                ;
            }
            x as i128
        },
    };
    moved as i64
}

/// The closed-form motion law: a particle that started at `x0` at time `t0`
/// and travels at `v` milli-pixels per millisecond stands at
/// `x0 + v * (t - t0)` at time `t`.
pub open spec fn particle_x_at(x0: int, v: int, t0: int, t: int) -> int {
    x0 + v * (t - t0)
}

/// Evaluate the closed-form motion law at time `t_ms` for a particle spawned
/// at `x0` at time `t0_ms`.
pub fn particle_x(x0: i64, v: i64, t0_ms: u64, t_ms: u64) -> (x: i64)
    requires
        t0_ms <= t_ms,
        i64::MIN <= particle_x_at(x0 as int, v as int, t0_ms as int, t_ms as int),
        particle_x_at(x0 as int, v as int, t0_ms as int, t_ms as int) <= i64::MAX,
    ensures
        x == particle_x_at(x0 as int, v as int, t0_ms as int, t_ms as int),
{
    let dt: u64 = t_ms - t0_ms;
    proof {
        assert((v as i128) * (dt as i128) == (v as int) * (dt as int)
            && i128::MIN <= (v as int) * (dt as int) <= i128::MAX) by (nonlinear_arith)
            requires
                i64::MIN <= v <= i64::MAX,
                0 <= dt <= u64::MAX,
        ;
    }
    let travelled: i128 = (v as i128) * (dt as i128);
    let x: i128 = (x0 as i128) + travelled;
    x as i64
}

/// Advance a particle's x-position by one frame of `delta_ms` milliseconds.
pub fn particle_frame_step(x: i64, v: i64, delta_ms: u64) -> (nx: i64)
    requires
        i64::MIN <= x + v * delta_ms,
        x + v * delta_ms <= i64::MAX,
    ensures
        nx == x + v * delta_ms,
{
    proof {
        assert((v as i128) * (delta_ms as i128) == (v as int) * (delta_ms as int)
            && i128::MIN <= (v as int) * (delta_ms as int) <= i128::MAX) by (nonlinear_arith)
            requires
                i64::MIN <= v <= i64::MAX,
                0 <= delta_ms <= u64::MAX,
        ;
    }
    let step: i128 = (v as i128) * (delta_ms as i128);
    let nx: i128 = (x as i128) + step;
    nx as i64
}

/// Where a particle stands after advancing frame by frame through `deltas`,
/// starting from `x0` and moving at `v` milli-pixels per millisecond.
pub open spec fn stepped_x(x0: int, v: int, deltas: Seq<u64>) -> int
    decreases deltas.len(),
{
    if deltas.len() == 0 {
        x0
    } else {
        stepped_x(x0 + v * deltas[0], v, deltas.drop_first())
    }
}

/// Appending one more frame to a stepped trajectory advances it by one step.
pub proof fn lemma_stepped_x_push(x0: int, v: int, deltas: Seq<u64>, d: u64)
    ensures
        stepped_x(x0, v, deltas.push(d)) == stepped_x(x0, v, deltas) + v * d,
    decreases deltas.len(),
{
    if deltas.len() == 0 {
        assert(deltas.push(d).drop_first() =~= Seq::<u64>::empty());
        assert(stepped_x(x0 + v * d, v, Seq::<u64>::empty()) == x0 + v * d);
    } else {
        assert(deltas.push(d).drop_first() =~= deltas.drop_first().push(d));
        lemma_stepped_x_push(x0 + v * deltas[0], v, deltas.drop_first(), d);
        assert(stepped_x(x0, v, deltas.push(d))
            == stepped_x(x0 + v * deltas[0], v, deltas.drop_first().push(d)));
        assert(stepped_x(x0, v, deltas)
            == stepped_x(x0 + v * deltas[0], v, deltas.drop_first()));
    }
}

/// The motion law: advancing a particle frame by frame through any sequence
/// of frame durations lands it exactly where the closed form
/// `x0 + v * (total elapsed time)` says.
pub proof fn lemma_stepping_matches_closed_form(x0: int, v: int, deltas: Seq<u64>)
    ensures
        stepped_x(x0, v, deltas) == particle_x_at(x0, v, 0, total_ms(deltas)),
    decreases deltas.len(),
{
    if deltas.len() > 0 {
        lemma_stepping_matches_closed_form(x0 + v * deltas[0], v, deltas.drop_first());
        assert(stepped_x(x0, v, deltas)
            == x0 + v * deltas[0] + v * (total_ms(deltas.drop_first()) - 0));
        lemma_mul_is_distributive_add(v, deltas[0] as int, total_ms(deltas.drop_first()));
        assert(total_ms(deltas) == deltas[0] + total_ms(deltas.drop_first()));
        assert(v * (total_ms(deltas) - 0)
            == v * deltas[0] + v * total_ms(deltas.drop_first()));
    } else {
        assert(total_ms(deltas) == 0);
        assert(stepped_x(x0, v, deltas) == x0);
        assert(v * (total_ms(deltas) - 0) == 0) by (nonlinear_arith)
            requires
                total_ms(deltas) == 0,
        ;
    }
}

/// A particle's position part-way through its travel lies between its start
/// and its end: the trajectory is monotone, the way its constant speed
/// directs.
pub proof fn lemma_particle_x_between(x0: int, v: int, t: int, t_end: int)
    requires
        0 <= t <= t_end,
    ensures
        v >= 0 ==> x0 <= particle_x_at(x0, v, 0, t) <= particle_x_at(x0, v, 0, t_end),
        v < 0 ==> particle_x_at(x0, v, 0, t_end) <= particle_x_at(x0, v, 0, t) <= x0,
{
    assert((v >= 0 ==> 0 <= v * t <= v * t_end) && (v < 0 ==> v * t_end <= v * t
        <= 0)) by (nonlinear_arith)
        requires
            0 <= t <= t_end,
    ;
}

/// Run a particle's horizontal motion through a whole sequence of frames.
/// The result is exactly the closed-form law applied to the total elapsed
/// time, which `lemma_stepping_matches_closed_form` restates in full.  Only
/// the endpoint has to be representable: every intermediate position lies
/// between start and end.
pub fn simulate_particle_x(x0: i64, v: i64, deltas: &Vec<u64>) -> (x: i64)
    requires
        i64::MIN <= particle_x_at(x0 as int, v as int, 0, total_ms(deltas@)),
        particle_x_at(x0 as int, v as int, 0, total_ms(deltas@)) <= i64::MAX,
    ensures
        x == stepped_x(x0 as int, v as int, deltas@),
        x == particle_x_at(x0 as int, v as int, 0, total_ms(deltas@)),
{
    let mut x: i64 = x0;
    proof {
        assert(deltas@.take(0) =~= Seq::<u64>::empty());
        assert(v * 0 == 0) by (nonlinear_arith);
    }
    let n: usize = deltas.len();
    for idx in 0..n
        invariant
            n == deltas@.len(),
            x == particle_x_at(x0 as int, v as int, 0, total_ms(deltas@.take(idx as int))),
            x == stepped_x(x0 as int, v as int, deltas@.take(idx as int)),
            i64::MIN <= particle_x_at(x0 as int, v as int, 0, total_ms(deltas@)),
            particle_x_at(x0 as int, v as int, 0, total_ms(deltas@)) <= i64::MAX,
    {
        let ghost prefix = deltas@.take(idx as int);
        let ghost d = deltas@[idx as int];
        proof {
            lemma_stepped_x_push(x0 as int, v as int, prefix, d);
            lemma_total_ms_push(prefix, d);
            assert(prefix.push(d) =~= deltas@.take(idx + 1));
            lemma_total_ms_take_le(deltas@, idx + 1);
            lemma_particle_x_between(
                x0 as int,
                v as int,
                total_ms(deltas@.take(idx + 1)),
                total_ms(deltas@),
            );
            lemma_mul_is_distributive_add(v as int, total_ms(prefix), d as int);
            assert(x + v * d == particle_x_at(
                x0 as int,
                v as int,
                0,
                total_ms(deltas@.take(idx + 1)),
            ));
        }
        x = particle_frame_step(x, v, deltas[idx]);
    }
    proof {
        assert(deltas@.take(n as int) =~= deltas@);
        lemma_stepping_matches_closed_form(x0 as int, v as int, deltas@);
    }
    x
}

} // verus!
