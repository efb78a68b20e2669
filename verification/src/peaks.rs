//! Per-channel peak accumulation over interleaved sample blocks.
//!
//! A sample block is a byte buffer of interleaved single-precision samples,
//! four little-endian bytes per sample, channel-major within each frame:
//! sample `n` belongs to channel `n % channels`. The peak of a channel is the
//! largest absolute sample value on it.
//!
//! The computation works on bit patterns and never touches floating-point
//! arithmetic: for the standard single-precision encoding, clearing the top
//! bit of a sample's pattern yields the pattern of its magnitude, and the
//! unsigned order of magnitude patterns agrees with the numeric order of the
//! magnitudes themselves, up to the infinity pattern. Patterns above the
//! infinity pattern denote no number at all; such a sample carries no
//! magnitude and is skipped, just as a floating-point maximum ignores an
//! undefined operand. The peak is therefore always the pattern of zero or of
//! some sample's magnitude, finite or infinite, and never an undefined
//! pattern. The embedding turns the returned pattern back into a number for
//! display. Nothing is retained between calls.

use vstd::prelude::*;

verus! {

/// The larger of two unsigned patterns.
pub open spec fn max_u32(a: u32, b: u32) -> u32 {
    if a >= b {
        a
    } else {
        b
    }
}

/// The four little-endian bytes of sample `n`, combined into one pattern.
pub open spec fn sample_bits(bytes: Seq<u8>, n: int) -> u32 {
    (bytes[4 * n] + bytes[4 * n + 1] * 0x100 + bytes[4 * n + 2] * 0x10000 + bytes[4 * n + 3]
        * 0x1000000) as u32
}

/// The magnitude pattern of sample `n`: its pattern with the sign bit
/// cleared.
pub open spec fn magnitude_bits(bytes: Seq<u8>, n: int) -> u32 {
    sample_bits(bytes, n) & 0x7fff_ffffu32
}

/// The infinity pattern: the largest magnitude pattern that denotes a
/// number. A magnitude pattern above it denotes no number and takes no part
/// in a peak.
pub const INFINITY_BITS: u32 = 0x7f80_0000;

/// Largest magnitude pattern among the samples at positions
/// `pos, pos + stride, pos + 2 * stride, ...` below `limit`, counting only
/// samples whose magnitude pattern denotes a number; zero when no such
/// sample exists.
pub open spec fn chan_peak(bytes: Seq<u8>, pos: int, stride: int, limit: int) -> u32
    decreases (if pos < limit {
        limit - pos
    } else {
        0
    }),
    when stride >= 1
{
    if pos < 0 || pos >= limit {
        0u32
    } else {
        let rest = chan_peak(bytes, pos + stride, stride, limit);
        if magnitude_bits(bytes, pos) <= INFINITY_BITS {
            max_u32(magnitude_bits(bytes, pos), rest)
        } else {
            rest
        }
    }
}

/// Peak magnitude pattern of one channel of an interleaved block: the
/// unsigned maximum, over the samples of `channel` that denote a number, of
/// the sample's pattern with the sign bit cleared. Samples above the
/// infinity pattern are skipped. Zero for a channel with no counting
/// samples, so an all-zero block of any length reports a zero peak.
pub fn channel_peak(samples: &Vec<u8>, channel: usize, n_channels: usize, n_samples: usize) -> (r:
    u32)
    requires
        1 <= n_channels,
        channel < n_channels,
        4 * n_samples <= samples@.len(),
    ensures
        r == chan_peak(samples@, channel as int, n_channels as int, n_samples as int),
{
    let ghost target = chan_peak(samples@, channel as int, n_channels as int, n_samples as int);
    let total = samples.len();
    let mut acc: u32 = 0;
    let mut pos: usize = channel;
    while pos < n_samples
        invariant
            1 <= n_channels,
            4 * n_samples <= total == samples@.len(),
            target == chan_peak(samples@, channel as int, n_channels as int, n_samples as int),
            target == max_u32(
                acc,
                chan_peak(samples@, pos as int, n_channels as int, n_samples as int),
            ),
        decreases n_samples - pos,
    {
        let b0 = samples[4 * pos] as u32;
        let b1 = samples[4 * pos + 1] as u32;
        let b2 = samples[4 * pos + 2] as u32;
        let b3 = samples[4 * pos + 3] as u32;
        let bits: u32 = b0 + b1 * 0x100 + b2 * 0x10000 + b3 * 0x1000000;
        let mag: u32 = bits & 0x7fff_ffff;
        proof {
            assert(bits == sample_bits(samples@, pos as int));
            assert(mag == magnitude_bits(samples@, pos as int));
            let rest = chan_peak(
                samples@,
                pos + n_channels as int,
                n_channels as int,
                n_samples as int,
            );
            assert(chan_peak(samples@, pos as int, n_channels as int, n_samples as int) == (
            if mag <= INFINITY_BITS {
                max_u32(mag, rest)
            } else {
                rest
            }));
        }
        if mag <= INFINITY_BITS && mag > acc {
            acc = mag;
        }
        // The last step on the channel may overshoot `n_samples`; land on it
        // instead, which names the same (empty) remainder.
        if n_samples - pos > n_channels {
            pos = pos + n_channels;
        } else {
            proof {
                assert(chan_peak(
                    samples@,
                    pos + n_channels as int,
                    n_channels as int,
                    n_samples as int,
                ) == 0u32);
                assert(chan_peak(samples@, n_samples as int, n_channels as int, n_samples as int)
                    == 0u32);
            }
            pos = n_samples;
        }
    }
    acc
}

/// Peak magnitude patterns of every channel of an interleaved block, in
/// channel order. `n_samples` is the total sample count over all channels;
/// trailing bytes beyond complete samples are ignored by the caller's choice
/// of `n_samples`.
pub fn all_channel_peaks(samples: &Vec<u8>, n_channels: usize, n_samples: usize) -> (r: Vec<u32>)
    requires
        4 * n_samples <= samples@.len(),
    ensures
        r@.len() == n_channels,
        forall|c: int|
            0 <= c < n_channels ==> r@[c] == chan_peak(
                samples@,
                c,
                n_channels as int,
                n_samples as int,
            ),
{
    let mut peaks: Vec<u32> = Vec::new();
    for c in 0..n_channels
        invariant
            4 * n_samples <= samples@.len(),
            peaks@.len() == c,
            forall|k: int|
                0 <= k < c ==> peaks@[k] == chan_peak(
                    samples@,
                    k,
                    n_channels as int,
                    n_samples as int,
                ),
    {
        let p = channel_peak(samples, c, n_channels, n_samples);
        peaks.push(p);
    }
    peaks
}

} // verus!
