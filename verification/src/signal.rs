//! The signal graph: a wavetable oscillator producing one stereo frame per
//! call, indefinitely.
//!
//! The oscillator owns one cycle of a waveform as fixed-point samples and a
//! phase accumulator with 16 fractional bits: each frame it emits the sample
//! under the integer part of the phase and advances the phase by a fixed step,
//! wrapping at the end of the table.  The step is derived once from the
//! tone frequency and the negotiated sample rate; any periodic waveform can be
//! substituted by loading a different table.

use vstd::prelude::*;
use vstd::arithmetic::div_mod::{lemma_mod_bound, lemma_multiply_divide_lt};

verus! {

/// Largest accepted table length: one full second of samples at common rates.
pub open spec fn max_table_len() -> int {
    0x100000
}

/// Largest accepted tone frequency.
pub open spec fn max_freq() -> int {
    0x100000
}

/// Fixed-point scale of the phase accumulator: 16 fractional bits per
/// table position.
pub open spec fn phase_scale() -> int {
    0x10000
}

/// A wavetable oscillator.  `phase` and `step` are fixed point with 16
/// fractional bits, both always below `table.len() * 0x10000`.
pub struct Wavetable {
    pub table: Vec<i64>,
    pub phase: u64,
    pub step: u64,
}

impl Wavetable {
    /// Well-formedness: a nonempty, bounded table, with phase and step inside
    /// one table cycle.
    pub open spec fn wf(self) -> bool {
        &&& 1 <= self.table@.len() <= max_table_len()
        &&& (self.phase as int) < self.table@.len() * phase_scale()
        &&& (self.step as int) < self.table@.len() * phase_scale()
    }

    /// The fixed-point length of one table cycle.
    pub open spec fn modulus(self) -> int {
        self.table@.len() * phase_scale()
    }

    /// The sample the oscillator emits at its current position.
    pub open spec fn current_sample(self) -> i64 {
        self.table@[self.phase as int / phase_scale()]
    }

    /// The oscillator after emitting one frame: the phase has advanced by one
    /// step, wrapped at the end of the table; table and step are untouched.
    pub open spec fn advanced(self) -> Wavetable {
        Wavetable {
            table: self.table,
            phase: ((self.phase + self.step) % self.modulus()) as u64,
            step: self.step,
        }
    }

    /// The oscillator after emitting `k` frames.
    pub open spec fn advanced_by(self, k: nat) -> Wavetable
        decreases k,
    {
        if k == 0 {
            self
        } else {
            self.advanced_by((k - 1) as nat).advanced()
        }
    }

    /// Whether an oscillator can be built at all from a table length, a tone
    /// frequency and a sample rate: the table must be nonempty and bounded,
    /// the frequency positive, bounded, and below the sample rate.
    pub open spec fn spec_buildable(len: int, freq_hz: int, rate_hz: int) -> bool {
        &&& 1 <= len <= max_table_len()
        &&& 1 <= freq_hz <= max_freq()
        &&& freq_hz < rate_hz
    }

    /// Builds an oscillator that sweeps `table` (one waveform cycle) at
    /// `freq_hz` cycles per second when asked for `rate_hz` frames per second.
    /// Returns `None` exactly when the inputs are out of the buildable range;
    /// otherwise the oscillator starts at phase zero with the step
    /// `len * 0x10000 * freq_hz / rate_hz` (rounded down).
    pub fn build(table: Vec<i64>, freq_hz: u64, rate_hz: u64) -> (r: Option<Wavetable>)
        ensures
            r is Some <==> Self::spec_buildable(table@.len() as int, freq_hz as int, rate_hz as int),
            r matches Some(o) ==> (o.wf() && o.table@ == table@ && o.phase == 0 && o.step as int
                == table@.len() * phase_scale() * (freq_hz as int) / (rate_hz as int)),
    {
        let len = table.len();
        if len < 1 || len > 0x100000 || freq_hz < 1 || freq_hz > 0x100000 || rate_hz <= freq_hz {
            return None;
        }
        let m: u64 = (len as u64) * 0x10000;
        proof {
            assert((m as int) * (freq_hz as int) <= 0x100000000000000) by (nonlinear_arith)
                requires
                    0 <= m as int <= 0x1000000000,
                    0 <= freq_hz <= 0x100000,
            ;
        }
        let num: u64 = m * freq_hz;
        let step: u64 = num / rate_hz;
        proof {
            assert((num as int) < (rate_hz as int) * (m as int)) by (nonlinear_arith)
                requires
                    num as int == (m as int) * (freq_hz as int),
                    (freq_hz as int) < (rate_hz as int),
                    m as int >= 0x10000,
            ;
            lemma_multiply_divide_lt(num as int, rate_hz as int, m as int);
        }
        Some(Wavetable { table, phase: 0, step })
    }

    /// Emits the next stereo frame — the current sample on both channels —
    /// and advances the phase by one step.
    pub fn next_frame(&mut self) -> (r: (i64, i64))
        requires
            old(self).wf(),
        ensures
            final(self).wf(),
            *final(self) == old(self).advanced(),
            r.0 == old(self).current_sample(),
            r.1 == old(self).current_sample(),
    {
        proof {
            lemma_multiply_divide_lt(self.phase as int, 0x10000, self.table@.len() as int);
        }
        let idx: usize = (self.phase / 0x10000) as usize;
        let s = self.table[idx];
        let m: u64 = (self.table.len() as u64) * 0x10000;
        proof {
            lemma_mod_bound(self.phase + self.step, m as int);
        }
        self.phase = (self.phase + self.step) % m;
        (s, s)
    }

    /// Advancing preserves well-formedness and touches only the phase.
    pub proof fn lemma_advanced_wf(self)
        requires
            self.wf(),
        ensures
            self.advanced().wf(),
            self.advanced().table == self.table,
            self.advanced().step == self.step,
    {
        lemma_mod_bound(self.phase + self.step, self.modulus());
    }

    /// So does advancing any number of frames.
    pub proof fn lemma_advanced_by_wf(self, k: nat)
        requires
            self.wf(),
        ensures
            self.advanced_by(k).wf(),
            self.advanced_by(k).table == self.table,
            self.advanced_by(k).step == self.step,
        decreases k,
    {
        if k > 0 {
            self.lemma_advanced_by_wf((k - 1) as nat);
            self.advanced_by((k - 1) as nat).lemma_advanced_wf();
        }
    }

    /// Advancing composes: stepping `a + b` frames is stepping `a`, then `b`.
    /// The oscillator is one infinite lazy sequence of frames, however the
    /// driver chops it into buffers.
    pub proof fn lemma_advanced_by_adds(self, a: nat, b: nat)
        ensures
            self.advanced_by(a + b) == self.advanced_by(a).advanced_by(b),
        decreases b,
    {
        if b > 0 {
            self.lemma_advanced_by_adds(a, (b - 1) as nat);
        }
    }

    /// Produces the next `n` frames in order, advancing the oscillator by `n`
    /// steps: frame `k` is the sample the oscillator stands on after `k`
    /// steps, on both channels.
    pub fn render(&mut self, n: usize) -> (frames: Vec<(i64, i64)>)
        requires
            old(self).wf(),
        ensures
            final(self).wf(),
            *final(self) == old(self).advanced_by(n as nat),
            frames@.len() == n,
            forall|k: int|
                0 <= k < n ==> #[trigger] frames@[k] == (
                    old(self).advanced_by(k as nat).current_sample(),
                    old(self).advanced_by(k as nat).current_sample(),
                ),
    {
        let mut frames: Vec<(i64, i64)> = Vec::new();
        let mut i: usize = 0;
        while i < n
            invariant
                i <= n,
                old(self).wf(),
                self.wf(),
                *self == old(self).advanced_by(i as nat),
                frames@.len() == i,
                forall|k: int|
                    0 <= k < i ==> #[trigger] frames@[k] == (
                        old(self).advanced_by(k as nat).current_sample(),
                        old(self).advanced_by(k as nat).current_sample(),
                    ),
            decreases n - i,
        {
            let f = self.next_frame();
            frames.push(f);
            proof {
                assert(old(self).advanced_by((i + 1) as nat) == old(self).advanced_by(
                    i as nat,
                ).advanced());
            }
            i = i + 1;
        }
        frames
    }
}

} // verus!
