//! The output stream driver's buffer-fill path: interleaving stereo frames
//! into a flat device buffer, and the format dispatch made at stream setup.
//!
//! The interleaving rule is the one the device callback must reproduce for
//! every channel count: within each frame of `channels` consecutive output
//! slots, every even channel index receives the left sample and every odd
//! channel index the right sample.

use vstd::prelude::*;
use vstd::arithmetic::div_mod::{
    lemma_fundamental_div_mod, lemma_fundamental_div_mod_converse_div,
    lemma_fundamental_div_mod_converse_mod, lemma_mod_bound, lemma_multiply_divide_lt,
    lemma_div_is_ordered_by_denominator,
};
use vstd::arithmetic::mul::lemma_mul_inequality;
use crate::convert::{clamp, convert_i16, convert_u16};
use crate::signal::Wavetable;

verus! {

/// The sample formats a negotiated device configuration may carry, as the
/// engine distinguishes them: the three it can adapt to, and everything else.
#[derive(Debug, PartialEq, Eq, Structural, Clone, Copy)]
pub enum SampleFormat {
    F32,
    I16,
    U16,
    Other,
}

/// The fatal startup failures: each aborts stream setup before steady state.
#[derive(Debug, PartialEq, Eq, Structural, Clone, Copy)]
pub enum SetupError {
    NoDevice,
    NoConfig,
    UnsupportedFormat,
    StreamFailed,
}

/// Accepts exactly the sample formats the engine can adapt to; any other
/// format fails fast at stream-setup time, never per sample.
pub fn check_format(format: SampleFormat) -> (r: Result<SampleFormat, SetupError>)
    ensures
        format != SampleFormat::Other ==> r == Ok::<SampleFormat, SetupError>(format),
        format == SampleFormat::Other ==> r == Err::<SampleFormat, SetupError>(
            SetupError::UnsupportedFormat,
        ),
{
    match format {
        SampleFormat::F32 => Ok(SampleFormat::F32),
        SampleFormat::I16 => Ok(SampleFormat::I16),
        SampleFormat::U16 => Ok(SampleFormat::U16),
        SampleFormat::Other => Err(SetupError::UnsupportedFormat),
    }
}

/// The sample a frame contributes to channel index `c`: the left sample on
/// every even channel, the right sample on every odd channel.
pub open spec fn spec_channel_sample(frame: (i64, i64), c: int) -> i64 {
    if c % 2 == 0 {
        frame.0
    } else {
        frame.1
    }
}

/// How many frames a buffer of `len` slots holds at `channels` slots per
/// frame, a trailing partial frame included.
pub open spec fn spec_frames_needed(len: int, channels: int) -> int {
    if len % channels == 0 {
        len / channels
    } else {
        len / channels + 1
    }
}

/// Fills the buffer with the given frames, converted to signed 16-bit
/// samples and interleaved: output slot `f * channels + c` receives frame
/// `f`'s left sample when the channel index `c` is even and its right sample
/// when `c` is odd.
pub fn fill_interleaved_i16(output: &mut Vec<i16>, channels: usize, frames: &Vec<(i64, i64)>)
    requires
        channels >= 1,
        frames@.len() * channels >= old(output)@.len(),
    ensures
        final(output)@.len() == old(output)@.len(),
        forall|f: int, c: int|
            0 <= f < frames@.len() && 0 <= c < channels && f * channels + c < final(output)@.len()
                ==> final(output)@[f * channels + c] as int == clamp(
                spec_channel_sample(frames@[f], c) as int,
                -32768,
                32767,
            ),
{
    let n = output.len();
    let mut i: usize = 0;
    while i < n
        invariant
            channels >= 1,
            i <= n,
            output@.len() == n,
            frames@.len() * channels >= n,
            forall|j: int|
                0 <= j < i ==> #[trigger] output@[j] as int == clamp(
                    spec_channel_sample(frames@[j / channels as int], j % channels as int) as int,
                    -32768,
                    32767,
                ),
        decreases n - i,
    {
        proof {
            lemma_multiply_divide_lt(i as int, channels as int, frames@.len() as int);
            lemma_mod_bound(i as int, channels as int);
        }
        let fi: usize = i / channels;
        let c: usize = i % channels;
        let fr = frames[fi];
        let v: i64 = if c % 2 == 0 {
            fr.0
        } else {
            fr.1
        };
        let s = convert_i16(v);
        output[i] = s;
        i = i + 1;
    }
    proof {
        assert forall|f: int, c: int|
            0 <= f < frames@.len() && 0 <= c < channels && f * channels + c < output@.len()
                implies output@[f * channels + c] as int == clamp(
            spec_channel_sample(frames@[f], c) as int,
            -32768,
            32767,
        ) by {
            let j = f * channels + c;
            lemma_fundamental_div_mod_converse_div(j, channels as int, f, c);
            lemma_fundamental_div_mod_converse_mod(j, channels as int, f, c);
        }
    }
}

/// Fills the buffer with the given frames, converted to unsigned 16-bit
/// offset-binary samples, under the same interleaving rule.
pub fn fill_interleaved_u16(output: &mut Vec<u16>, channels: usize, frames: &Vec<(i64, i64)>)
    requires
        channels >= 1,
        frames@.len() * channels >= old(output)@.len(),
    ensures
        final(output)@.len() == old(output)@.len(),
        forall|f: int, c: int|
            0 <= f < frames@.len() && 0 <= c < channels && f * channels + c < final(output)@.len()
                ==> final(output)@[f * channels + c] as int == clamp(
                spec_channel_sample(frames@[f], c) as int,
                -32768,
                32767,
            ) + 32768,
{
    let n = output.len();
    let mut i: usize = 0;
    while i < n
        invariant
            channels >= 1,
            i <= n,
            output@.len() == n,
            frames@.len() * channels >= n,
            forall|j: int|
                0 <= j < i ==> #[trigger] output@[j] as int == clamp(
                    spec_channel_sample(frames@[j / channels as int], j % channels as int) as int,
                    -32768,
                    32767,
                ) + 32768,
        decreases n - i,
    {
        proof {
            lemma_multiply_divide_lt(i as int, channels as int, frames@.len() as int);
            lemma_mod_bound(i as int, channels as int);
        }
        let fi: usize = i / channels;
        let c: usize = i % channels;
        let fr = frames[fi];
        let v: i64 = if c % 2 == 0 {
            fr.0
        } else {
            fr.1
        };
        let s = convert_u16(v);
        output[i] = s;
        i = i + 1;
    }
    proof {
        assert forall|f: int, c: int|
            0 <= f < frames@.len() && 0 <= c < channels && f * channels + c < output@.len()
                implies output@[f * channels + c] as int == clamp(
            spec_channel_sample(frames@[f], c) as int,
            -32768,
            32767,
        ) + 32768 by {
            let j = f * channels + c;
            lemma_fundamental_div_mod_converse_div(j, channels as int, f, c);
            lemma_fundamental_div_mod_converse_mod(j, channels as int, f, c);
        }
    }
}

/// How many frames a buffer of `n` slots needs, and that many frames cover it.
fn frames_needed(n: usize, channels: usize) -> (r: usize)
    requires
        channels >= 1,
    ensures
        r == spec_frames_needed(n as int, channels as int),
        r * channels >= n,
{
    proof {
        lemma_fundamental_div_mod(n as int, channels as int);
        lemma_mod_bound(n as int, channels as int);
        if n as int % channels as int != 0 {
            lemma_mod_bound(n as int, 1);
            lemma_div_is_ordered_by_denominator(n as int, 2, channels as int);
            assert((n as int / channels as int + 1) * channels as int == (n as int
                / channels as int) * channels as int + channels as int) by (nonlinear_arith);
            assert((n as int / channels as int) * channels as int == channels as int * (n as int
                / channels as int)) by (nonlinear_arith);
        } else {
            assert((n as int / channels as int) * channels as int == channels as int * (n as int
                / channels as int)) by (nonlinear_arith);
        }
    }
    if n % channels == 0 {
        n / channels
    } else {
        n / channels + 1
    }
}

/// The device callback's buffer-fill step for a signed 16-bit device: pulls
/// one stereo frame from the signal source for each frame slot (a trailing
/// partial frame included), adapts each channel's sample, and writes it to
/// the interleaved position — the left sample on even channel indices, the
/// right on odd ones.  Here both channels carry the oscillator's sample, so
/// every slot of frame `f` receives the sample after `f` steps.
pub fn write_data_i16(output: &mut Vec<i16>, channels: usize, source: &mut Wavetable)
    requires
        channels >= 1,
        old(source).wf(),
    ensures
        final(output)@.len() == old(output)@.len(),
        final(source).wf(),
        *final(source) == old(source).advanced_by(
            spec_frames_needed(old(output)@.len() as int, channels as int) as nat,
        ),
        forall|f: int, c: int|
            0 <= f && 0 <= c < channels && f * channels + c < final(output)@.len()
                ==> #[trigger] final(output)@[f * channels + c] as int == clamp(
                old(source).advanced_by(f as nat).current_sample() as int,
                -32768,
                32767,
            ),
{
    let n = output.len();
    let nframes = frames_needed(n, channels);
    let frames = source.render(nframes);
    fill_interleaved_i16(output, channels, &frames);
    proof {
        assert forall|f: int, c: int|
            0 <= f && 0 <= c < channels && f * channels + c < output@.len()
                implies #[trigger] output@[f * channels + c] as int == clamp(
            old(source).advanced_by(f as nat).current_sample() as int,
            -32768,
            32767,
        ) by {
            if f >= nframes {
                lemma_mul_inequality(nframes as int, f, channels as int);
            }
            assert(f < frames@.len());
            assert(spec_channel_sample(frames@[f], c) == old(source).advanced_by(
                f as nat,
            ).current_sample());
        }
    }
}

/// The same buffer-fill step for an unsigned 16-bit device.
pub fn write_data_u16(output: &mut Vec<u16>, channels: usize, source: &mut Wavetable)
    requires
        channels >= 1,
        old(source).wf(),
    ensures
        final(output)@.len() == old(output)@.len(),
        final(source).wf(),
        *final(source) == old(source).advanced_by(
            spec_frames_needed(old(output)@.len() as int, channels as int) as nat,
        ),
        forall|f: int, c: int|
            0 <= f && 0 <= c < channels && f * channels + c < final(output)@.len()
                ==> #[trigger] final(output)@[f * channels + c] as int == clamp(
                old(source).advanced_by(f as nat).current_sample() as int,
                -32768,
                32767,
            ) + 32768,
{
    let n = output.len();
    let nframes = frames_needed(n, channels);
    let frames = source.render(nframes);
    fill_interleaved_u16(output, channels, &frames);
    proof {
        assert forall|f: int, c: int|
            0 <= f && 0 <= c < channels && f * channels + c < output@.len()
                implies #[trigger] output@[f * channels + c] as int == clamp(
            old(source).advanced_by(f as nat).current_sample() as int,
            -32768,
            32767,
        ) + 32768 by {
            if f >= nframes {
                lemma_mul_inequality(nframes as int, f, channels as int);
            }
            assert(f < frames@.len());
            assert(spec_channel_sample(frames@[f], c) == old(source).advanced_by(
                f as nat,
            ).current_sample());
        }
    }
}

} // verus!
