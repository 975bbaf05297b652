//! One hardware timer of the chip: an 8-bit up-counter driven by a fixed
//! microsecond period, with independent enable and mask bits and an
//! overflow ("elapsed") flag that reloads the counter from a preset.

use vstd::prelude::*;
use vstd::arithmetic::div_mod::lemma_fundamental_div_mod;
use vstd::arithmetic::div_mod::lemma_fundamental_div_mod_converse_div;
use vstd::arithmetic::div_mod::lemma_fundamental_div_mod_converse_mod;
use vstd::arithmetic::div_mod::lemma_div_pos_is_pos;
use vstd::arithmetic::div_mod::lemma_mod_bound;

verus! {

/// A free-running hardware timer. The counter wraps modulo 256; on a wrap
/// while enabled, `elapsed` is set and the counter reloads from `preset`.
/// Masking hides `elapsed` from status queries without stopping the count.
#[derive(Debug, Clone, Copy)]
pub struct OplTimer {
    /// Whether the counter advances on each tick period.
    pub enabled: bool,
    /// Whether the elapsed flag is hidden from status queries.
    pub masked: bool,
    /// The tick period, in microseconds per count step.
    pub rate: u32,
    /// The value the counter reloads from when it overflows.
    pub preset: u8,
    /// The current 8-bit count.
    pub counter: u8,
    /// Microseconds absorbed so far that did not yet amount to a full period.
    pub usec_accumulator: u64,
    /// Set when the counter overflowed while enabled; cleared on acknowledge.
    pub elapsed: bool,
}

impl OplTimer {
    /// A well-formed timer has a positive tick period and carries a residue
    /// of less than one period.
    pub open spec fn wf(self) -> bool {
        &&& self.rate >= 1
        &&& self.usec_accumulator < self.rate
    }

    /// The timer after one count step: a no-op while disabled; otherwise the
    /// counter increments, or on overflow reloads from `preset` and raises
    /// `elapsed`.
    pub open spec fn spec_count(self) -> OplTimer {
        if !self.enabled {
            self
        } else if self.counter == 255 {
            OplTimer {
                enabled: self.enabled,
                masked: self.masked,
                rate: self.rate,
                preset: self.preset,
                counter: self.preset,
                usec_accumulator: self.usec_accumulator,
                elapsed: true,
            }
        } else {
            OplTimer {
                enabled: self.enabled,
                masked: self.masked,
                rate: self.rate,
                preset: self.preset,
                counter: (self.counter + 1) as u8,
                usec_accumulator: self.usec_accumulator,
                elapsed: self.elapsed,
            }
        }
    }

    /// The timer after `n` count steps.
    pub open spec fn spec_count_n(self, n: nat) -> OplTimer
        decreases n,
    {
        if n == 0 {
            self
        } else {
            self.spec_count_n((n - 1) as nat).spec_count()
        }
    }

    /// The timer with its microsecond residue replaced.
    pub open spec fn with_accumulator(self, acc: u64) -> OplTimer {
        OplTimer {
            enabled: self.enabled,
            masked: self.masked,
            rate: self.rate,
            preset: self.preset,
            counter: self.counter,
            usec_accumulator: acc,
            elapsed: self.elapsed,
        }
    }

    /// The timer after absorbing `usec` microseconds: one count step per full
    /// period contained in the residue plus `usec`, the remainder kept.
    pub open spec fn spec_tick(self, usec: int) -> OplTimer {
        let total = self.usec_accumulator + usec;
        let period = self.rate as int;
        self.spec_count_n((total / period) as nat).with_accumulator((total % period) as u64)
    }

    /// The overflow flag as the status port sees it: masked timers read as
    /// not elapsed.
    pub open spec fn spec_is_elapsed(self) -> bool {
        self.elapsed && !self.masked
    }

    /// The timer with its mask bit set to `masked`.
    pub open spec fn spec_mask(self, masked: bool) -> OplTimer {
        OplTimer {
            enabled: self.enabled,
            masked,
            rate: self.rate,
            preset: self.preset,
            counter: self.counter,
            usec_accumulator: self.usec_accumulator,
            elapsed: self.elapsed,
        }
    }

    /// The timer with its enable bit set to `enabled`.
    pub open spec fn spec_enable(self, enabled: bool) -> OplTimer {
        OplTimer {
            enabled,
            masked: self.masked,
            rate: self.rate,
            preset: self.preset,
            counter: self.counter,
            usec_accumulator: self.usec_accumulator,
            elapsed: self.elapsed,
        }
    }

    /// The timer with its elapsed flag acknowledged (cleared).
    pub open spec fn spec_reset_elapsed(self) -> OplTimer {
        OplTimer {
            enabled: self.enabled,
            masked: self.masked,
            rate: self.rate,
            preset: self.preset,
            counter: self.counter,
            usec_accumulator: self.usec_accumulator,
            elapsed: false,
        }
    }

    /// The timer with its counter set directly, as a CPU write to the count
    /// register does.
    pub open spec fn with_counter(self, counter: u8) -> OplTimer {
        OplTimer {
            enabled: self.enabled,
            masked: self.masked,
            rate: self.rate,
            preset: self.preset,
            counter,
            usec_accumulator: self.usec_accumulator,
            elapsed: self.elapsed,
        }
    }

    /// Build a stopped, unmasked timer with the given tick period.
    pub fn new(rate: u32) -> (t: OplTimer)
        requires
            rate >= 1,
        ensures
            t == (OplTimer {
                enabled: false,
                masked: false,
                rate,
                preset: 0,
                counter: 0,
                usec_accumulator: 0,
                elapsed: false,
            }),
            t.wf(),
    {
        OplTimer {
            enabled: false,
            masked: false,
            rate,
            preset: 0,
            counter: 0,
            usec_accumulator: 0,
            elapsed: false,
        }
    }

    /// Set the mask bit. Masking only hides the elapsed flag; it never stops
    /// the counter.
    pub fn mask(&mut self, masked: bool)
        ensures
            *final(self) == old(self).spec_mask(masked),
    {
        self.masked = masked;
    }

    /// The elapsed flag as seen through the mask.
    pub fn is_elapsed(&self) -> (r: bool)
        ensures
            r == self.spec_is_elapsed(),
    {
        if self.masked {
            false
        } else {
            self.elapsed
        }
    }

    /// Set the enable bit; a disabled timer ignores count steps.
    pub fn enable(&mut self, state: bool)
        ensures
            *final(self) == old(self).spec_enable(state),
    {
        self.enabled = state;
    }

    /// Reload the counter from the preset and clear the elapsed flag, as a
    /// hardware reset of the timer would.
    pub fn reset(&mut self)
        ensures
            *final(self) == old(self).with_counter(old(self).preset).spec_reset_elapsed(),
    {
        self.counter = self.preset;
        self.elapsed = false;
    }

    /// Acknowledge the overflow: clear the elapsed flag without touching the
    /// counter.
    pub fn reset_elapsed(&mut self)
        ensures
            *final(self) == old(self).spec_reset_elapsed(),
    {
        self.elapsed = false;
    }

    /// One count step of the 8-bit up-counter, honouring the enable bit.
    pub fn count(&mut self)
        ensures
            *final(self) == old(self).spec_count(),
    {
        if self.enabled {
            if self.counter == 255 {
                self.elapsed = true;
                self.counter = self.preset;
            } else {
                self.counter = self.counter + 1;
            }
        }
    }

    /// Absorb `usec` microseconds: perform one count step per full tick
    /// period now contained in the accumulated residue, and keep the rest.
    #[verifier::loop_isolation(false)]
    pub fn tick(&mut self, usec: u64)
        requires
            old(self).wf(),
            old(self).usec_accumulator + usec <= u64::MAX,
        ensures
            *final(self) == old(self).spec_tick(usec as int),
            final(self).wf(),
    {
        self.usec_accumulator = self.usec_accumulator + usec;
        let ghost total: int = self.usec_accumulator as int;
        let ghost mut steps: int = 0;
        while self.usec_accumulator >= self.rate as u64
            invariant
                steps >= 0,
                self.rate == old(self).rate,
                steps * (self.rate as int) + self.usec_accumulator == total,
                *self == old(self).spec_count_n(steps as nat).with_accumulator(
                    self.usec_accumulator,
                ),
            decreases self.usec_accumulator,
        {
            self.usec_accumulator = self.usec_accumulator - self.rate as u64;
            self.count();
            proof {
                let period = self.rate as int;
                assert((steps + 1) * period == steps * period + period) by (nonlinear_arith);
                steps = steps + 1;
                assert(old(self).spec_count_n(steps as nat).with_accumulator(
                    self.usec_accumulator,
                ) == *self);
            }
        }
        proof {
            let period = self.rate as int;
            lemma_fundamental_div_mod_converse_div(
                total,
                period,
                steps,
                self.usec_accumulator as int,
            );
            lemma_fundamental_div_mod_converse_mod(
                total,
                period,
                steps,
                self.usec_accumulator as int,
            );
        }
    }
}

/// Count steps leave every field untouched except the counter and the
/// elapsed flag.
pub proof fn lemma_count_n_frame(t: OplTimer, n: nat)
    ensures
        t.spec_count_n(n).enabled == t.enabled,
        t.spec_count_n(n).masked == t.masked,
        t.spec_count_n(n).rate == t.rate,
        t.spec_count_n(n).preset == t.preset,
        t.spec_count_n(n).usec_accumulator == t.usec_accumulator,
    decreases n,
{
    if n > 0 {
        lemma_count_n_frame(t, (n - 1) as nat);
    }
}

/// Count steps compose: `m` steps followed by `n` steps are `m + n` steps.
pub proof fn lemma_count_n_add(t: OplTimer, m: nat, n: nat)
    ensures
        t.spec_count_n(m + n) == t.spec_count_n(m).spec_count_n(n),
    decreases n,
{
    if n > 0 {
        lemma_count_n_add(t, m, (n - 1) as nat);
    }
}

/// Count steps ignore the microsecond residue, so they commute with
/// replacing it.
pub proof fn lemma_count_n_with_accumulator(t: OplTimer, acc: u64, n: nat)
    ensures
        t.with_accumulator(acc).spec_count_n(n) == t.spec_count_n(n).with_accumulator(acc),
    decreases n,
{
    if n > 0 {
        lemma_count_n_with_accumulator(t, acc, (n - 1) as nat);
    }
}

/// Absorbing time is additive: ticking a well-formed timer by `a` and then
/// by `b` microseconds leaves the same state as ticking it once by `a + b`.
/// In particular, how a caller splits an interval across calls does not
/// change the number of count steps the timer performs.
pub proof fn lemma_tick_additive(t: OplTimer, a: int, b: int)
    requires
        t.wf(),
        a >= 0,
        b >= 0,
    ensures
        t.spec_tick(a).spec_tick(b) == t.spec_tick(a + b),
{
    let period = t.rate as int;
    let total1 = t.usec_accumulator + a;
    let n1 = total1 / period;
    let r1 = total1 % period;
    lemma_fundamental_div_mod(total1, period);
    lemma_mod_bound(total1, period);
    lemma_div_pos_is_pos(total1, period);
    let t1 = t.spec_tick(a);
    lemma_count_n_frame(t, n1 as nat);
    assert(t1 == t.spec_count_n(n1 as nat).with_accumulator(r1 as u64));
    assert(t1.rate == t.rate && t1.usec_accumulator == r1);

    let total2 = r1 + b;
    let n2 = total2 / period;
    let r2 = total2 % period;
    lemma_fundamental_div_mod(total2, period);
    lemma_mod_bound(total2, period);
    lemma_div_pos_is_pos(total2, period);
    lemma_count_n_with_accumulator(t.spec_count_n(n1 as nat), r1 as u64, n2 as nat);
    lemma_count_n_add(t, n1 as nat, n2 as nat);
    assert(t1.spec_tick(b) == t.spec_count_n((n1 + n2) as nat).with_accumulator(r2 as u64));

    let total = t.usec_accumulator + (a + b);
    assert(total == period * n1 + r1 + b);
    assert(total == period * n1 + (period * n2 + r2));
    assert((n1 + n2) * period == period * n1 + period * n2) by (nonlinear_arith);
    assert(total == (n1 + n2) * period + r2);
    lemma_fundamental_div_mod_converse_div(total, period, n1 + n2, r2);
    lemma_fundamental_div_mod_converse_mod(total, period, n1 + n2, r2);
}

/// Absorbing a nonnegative interval keeps a timer well-formed and never
/// changes its tick period.
pub proof fn lemma_tick_wf(t: OplTimer, usec: int)
    requires
        t.wf(),
        usec >= 0,
    ensures
        t.spec_tick(usec).wf(),
        t.spec_tick(usec).rate == t.rate,
{
    let period = t.rate as int;
    let total = t.usec_accumulator + usec;
    lemma_mod_bound(total, period);
    lemma_count_n_frame(t, (total / period) as nat);
}

/// The overflow cycle of the 8-bit counter: an enabled timer with preset
/// and counter zero counts 0, 1, ..., 255 without raising the elapsed flag,
/// and the 256th step wraps the counter back to the preset and raises the
/// flag — once per 256 steps, with everything else untouched.
pub proof fn lemma_overflow_cycle(t: OplTimer, k: nat)
    requires
        t.enabled,
        t.preset == 0,
        t.counter == 0,
        !t.elapsed,
        k <= 256,
    ensures
        k < 256 ==> t.spec_count_n(k).counter == k,
        k < 256 ==> !t.spec_count_n(k).elapsed,
        k == 256 ==> t.spec_count_n(k) == (OplTimer {
            enabled: t.enabled,
            masked: t.masked,
            rate: t.rate,
            preset: t.preset,
            counter: 0,
            usec_accumulator: t.usec_accumulator,
            elapsed: true,
        }),
    decreases k,
{
    if k > 0 {
        lemma_overflow_cycle(t, (k - 1) as nat);
        lemma_count_n_frame(t, (k - 1) as nat);
    }
}

/// Masking hides the elapsed flag without clearing it: a masked, elapsed
/// timer reads as not elapsed, and clearing the mask alone makes the same
/// flag visible again.
pub proof fn lemma_mask_hides_elapsed(t: OplTimer)
    requires
        t.elapsed,
        t.masked,
    ensures
        !t.spec_is_elapsed(),
        t.spec_mask(false).elapsed == t.elapsed,
        t.spec_mask(false).spec_is_elapsed(),
{
}

} // verus!
