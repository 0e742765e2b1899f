//! A repeating countdown timer over whole milliseconds.
//!
//! Both the particle spawn clock of a transmitter and the periodic scene
//! reset run off such a timer: each frame adds the frame's duration to the
//! elapsed time, the timer fires whenever the accumulated time reaches the
//! period, and the overshoot is carried into the next cycle.

use vstd::prelude::*;

verus! {

use vstd::arithmetic::div_mod::lemma_mod_multiples_vanish;

/// Total duration of a sequence of frames, in milliseconds.
pub open spec fn total_ms(deltas: Seq<u64>) -> int
    decreases deltas.len(),
{
    if deltas.len() == 0 {
        0
    } else {
        deltas[0] + total_ms(deltas.drop_first())
    }
}

/// Appending one more frame adds its duration to the total.
pub proof fn lemma_total_ms_push(deltas: Seq<u64>, d: u64)
    ensures
        total_ms(deltas.push(d)) == total_ms(deltas) + d,
    decreases deltas.len(),
{
    if deltas.len() == 0 {
        assert(deltas.push(d).drop_first() =~= Seq::<u64>::empty());
        assert(total_ms(Seq::<u64>::empty()) == 0);
    } else {
        assert(deltas.push(d).drop_first() =~= deltas.drop_first().push(d));
        lemma_total_ms_push(deltas.drop_first(), d);
        assert(total_ms(deltas.push(d)) == deltas[0] + total_ms(
            deltas.drop_first().push(d),
        ));
        assert(total_ms(deltas) == deltas[0] + total_ms(deltas.drop_first()));
    }
}

/// A frame sequence's total is never negative.
pub proof fn lemma_total_ms_nonneg(deltas: Seq<u64>)
    ensures
        total_ms(deltas) >= 0,
    decreases deltas.len(),
{
    if deltas.len() > 0 {
        lemma_total_ms_nonneg(deltas.drop_first());
    }
}

/// A prefix of a frame sequence lasts at most as long as the whole of it.
pub proof fn lemma_total_ms_take_le(deltas: Seq<u64>, i: int)
    requires
        0 <= i <= deltas.len(),
    ensures
        0 <= total_ms(deltas.take(i)) <= total_ms(deltas),
    decreases deltas.len() - i,
{
    lemma_total_ms_nonneg(deltas.take(i));
    if i == deltas.len() {
        assert(deltas.take(i) =~= deltas);
    } else {
        lemma_total_ms_take_le(deltas, i + 1);
        lemma_total_ms_push(deltas.take(i), deltas[i]);
        assert(deltas.take(i).push(deltas[i]) =~= deltas.take(i + 1));
    }
}

/// A repeating timer: fires every `period_ms` milliseconds of accumulated
/// elapsed time, wrapping the overshoot into the next cycle.
pub struct RepeatTimer {
    period_ms: u64,
    elapsed_ms: u64,
}

impl RepeatTimer {
    /// The period of the timer, in milliseconds.
    pub closed spec fn period(self) -> int {
        self.period_ms as int
    }

    /// Time accumulated in the current cycle, in milliseconds.
    pub closed spec fn elapsed(self) -> int {
        self.elapsed_ms as int
    }

    /// A timer is well formed when its period is positive and the time
    /// accumulated so far is still short of a full cycle.
    pub open spec fn wf(self) -> bool {
        0 < self.period() && self.elapsed() < self.period()
    }

    /// A fresh timer with the given period and nothing elapsed yet.
    pub fn new(period_ms: u64) -> (t: Self)
        requires
            period_ms > 0,
        ensures
            t.wf(),
            t.period() == period_ms,
            t.elapsed() == 0,
    {
        RepeatTimer { period_ms, elapsed_ms: 0 }
    }

    /// Advance the timer by one frame of `delta_ms` milliseconds.  Returns
    /// whether the timer fired during this frame; afterwards the elapsed time
    /// is the accumulated time reduced modulo the period.
    pub fn tick(&mut self, delta_ms: u64) -> (fired: bool)
        requires
            old(self).wf(),
        ensures
            final(self).wf(),
            final(self).period() == old(self).period(),
            fired == (old(self).elapsed() + delta_ms >= old(self).period()),
            final(self).elapsed() == (old(self).elapsed() + delta_ms) % old(self).period(),
    {
        let remaining: u64 = self.period_ms - self.elapsed_ms;
        if delta_ms < remaining {
            self.elapsed_ms = self.elapsed_ms + delta_ms;
            proof {
                vstd::arithmetic::div_mod::lemma_small_mod(
                    (old(self).elapsed() + delta_ms) as nat,
                    old(self).period() as nat,
                );
            }
            false
        } else {
            let overshoot: u64 = delta_ms - remaining;
            self.elapsed_ms = overshoot % self.period_ms;
            proof {
                lemma_mod_multiples_vanish(1, overshoot as int, old(self).period());
                assert(old(self).period() * 1 + overshoot ==
                    old(self).elapsed() + delta_ms);
            }
            true
        }
    }

    /// Start the current cycle over, discarding any accumulated time.
    pub fn reset(&mut self)
        requires
            old(self).wf(),
        ensures
            final(self).wf(),
            final(self).period() == old(self).period(),
            final(self).elapsed() == 0,
    {
        self.elapsed_ms = 0;
    }

    /// Drive the timer through a whole sequence of frames and count the
    /// frames during which it fired.  `fire_count` names the count;
    /// `lemma_fire_count_is_total_over_period` gives it in closed form.
    pub fn run_frames(&mut self, deltas: &Vec<u64>) -> (fired: usize)
        requires
            old(self).wf(),
        ensures
            final(self).wf(),
            final(self).period() == old(self).period(),
            fired == fire_count(old(self).elapsed(), old(self).period(), deltas@),
            final(self).elapsed() == (old(self).elapsed() + total_ms(deltas@)) % old(
                self,
            ).period(),
    {
        let ghost e0 = self.elapsed();
        let ghost p = self.period();
        let mut fired: usize = 0;
        proof {
            assert(deltas@.skip(0) =~= deltas@);
        }
        let n: usize = deltas.len();
        for idx in 0..n
            invariant
                n == deltas@.len(),
                self.wf(),
                self.period() == p,
                fired <= idx,
                fired + fire_count(self.elapsed(), p, deltas@.skip(idx as int)) == fire_count(
                    e0,
                    p,
                    deltas@,
                ),
                (self.elapsed() + total_ms(deltas@.skip(idx as int))) % p == (e0 + total_ms(
                    deltas@,
                )) % p,
        {
            let ghost e_before = self.elapsed();
            let ghost rest = deltas@.skip(idx as int);
            let now: bool = self.tick(deltas[idx]);
            proof {
                assert(rest.drop_first() =~= deltas@.skip(idx + 1));
                assert(rest[0] == deltas@[idx as int]);
                assert(fire_count(e_before, p, rest) == (if e_before + rest[0] >= p {
                    1int
                } else {
                    0int
                }) + fire_count((e_before + rest[0]) % p, p, rest.drop_first()));
                assert(total_ms(rest) == rest[0] + total_ms(rest.drop_first()));
                vstd::arithmetic::div_mod::lemma_add_mod_noop_right(
                    total_ms(deltas@.skip(idx + 1)),
                    e_before + rest[0],
                    p,
                );
            }
            if now {
                fired = fired + 1;
            }
        }
        proof {
            assert(deltas@.skip(n as int) =~= Seq::<u64>::empty());
            vstd::arithmetic::div_mod::lemma_small_mod(
                self.elapsed() as nat,
                p as nat,
            );
        }
        fired
    }
}

/// How many of the frames in `deltas` see a repeating timer fire, when the
/// timer starts with `elapsed` milliseconds accumulated towards a period of
/// `period`.  This is the recursion that `RepeatTimer::tick` performs frame
/// by frame.
pub open spec fn fire_count(elapsed: int, period: int, deltas: Seq<u64>) -> int
    decreases deltas.len(),
{
    if deltas.len() == 0 {
        0
    } else {
        (if elapsed + deltas[0] >= period {
            1int
        } else {
            0int
        }) + fire_count((elapsed + deltas[0]) % period, period, deltas.drop_first())
    }
}

/// The cadence law: over a run in which no single frame outlasts the period,
/// a repeating timer fires exactly once per full period of accumulated time
/// — `(elapsed + total) / period` times, rounded down.
pub proof fn lemma_fire_count_is_total_over_period(elapsed: int, period: int, deltas: Seq<u64>)
    requires
        0 < period,
        0 <= elapsed < period,
        forall|i: int| 0 <= i < deltas.len() ==> deltas[i] <= period,
    ensures
        fire_count(elapsed, period, deltas) == (elapsed + total_ms(deltas)) / period,
    decreases deltas.len(),
{
    if deltas.len() == 0 {
        vstd::arithmetic::div_mod::lemma_basic_div(elapsed, period);
    } else {
        let d = deltas[0] as int;
        let e2 = (elapsed + d) % period;
        let rest = deltas.drop_first();
        assert forall|i: int| 0 <= i < rest.len() implies rest[i] <= period by {
            assert(rest[i] == deltas[i + 1]);
        }
        lemma_total_ms_nonneg(rest);
        if elapsed + d < period {
            vstd::arithmetic::div_mod::lemma_small_mod(
                (elapsed + d) as nat,
                period as nat,
            );
            lemma_fire_count_is_total_over_period(e2, period, rest);
        } else {
            assert(elapsed + d < 2 * period);
            vstd::arithmetic::div_mod::lemma_mod_sub_multiples_vanish(
                elapsed + d,
                period,
            );
            vstd::arithmetic::div_mod::lemma_small_mod(
                (elapsed + d - period) as nat,
                period as nat,
            );
            assert(e2 == elapsed + d - period);
            lemma_fire_count_is_total_over_period(e2, period, rest);
            vstd::arithmetic::div_mod::lemma_div_plus_one(
                e2 + total_ms(rest),
                period,
            );
        }
        assert(total_ms(deltas) == d + total_ms(rest));
    }
}

} // verus!
