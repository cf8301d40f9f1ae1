//! PCM frame batches and their conversion to a negotiated
//! configuration.
//!
//! Samples are stored uniformly as signed 32-bit fixed-point values,
//! whatever encoding the stream uses on the wire; a batch's
//! configuration records rate, channel count and wire format. A frame
//! is one sample per channel, interleaved. Conversion re-times frames
//! by nearest-earlier selection, widens or narrows channels by
//! repeating or dropping trailing channels, and re-tags the wire
//! format.

use vstd::prelude::*;
use vstd::arithmetic::div_mod::{
    lemma_fundamental_div_mod, lemma_multiply_divide_lt,
};
use vstd::arithmetic::mul::{
    lemma_mul_inequality, lemma_mul_is_distributive_sub_other_way,
};
use crate::config::StreamConfig;

verus! {

/// A batch of interleaved PCM frames under one configuration.
#[derive(Clone, Debug, PartialEq, Eq)]
pub struct FrameBatch {
    /// The configuration the samples are laid out under.
    pub config: StreamConfig,
    /// Interleaved samples: frame after frame, one sample per channel.
    pub samples: Vec<i32>,
}

impl FrameBatch {
    /// A batch is well formed when its configuration is and its
    /// samples hold a whole number of frames.
    pub open spec fn wf(self) -> bool {
        &&& self.config.wf()
        &&& (self.samples@.len() as int) % (self.config.channels as int) == 0
    }

    /// The number of whole frames the batch holds.
    pub open spec fn spec_frames(self) -> int {
        self.samples@.len() as int / (self.config.channels as int)
    }

    /// Builds a batch from interleaved samples.
    pub fn new(config: StreamConfig, samples: Vec<i32>) -> (r: FrameBatch)
        requires
            config.wf(),
            (samples@.len() as int) % (config.channels as int) == 0,
        ensures
            r == (FrameBatch { config, samples }),
            r.wf(),
    {
        FrameBatch { config, samples }
    }

    /// A copy of the batch: the same configuration over the same
    /// samples.
    pub fn duplicate(&self) -> (r: FrameBatch)
        ensures
            r.config == self.config,
            r.samples@ == self.samples@,
    {
        let mut samples: Vec<i32> = Vec::new();
        let mut i: usize = 0;
        while i < self.samples.len()
            invariant
                0 <= i <= self.samples@.len(),
                samples@ == self.samples@.take(i as int),
            decreases self.samples@.len() - i,
        {
            samples.push(self.samples[i]);
            proof {
                assert(samples@ =~= self.samples@.take(i + 1 as int));
            }
            i = i + 1;
        }
        proof {
            assert(samples@ =~= self.samples@);
        }
        FrameBatch { config: self.config, samples }
    }

    /// The number of whole frames the batch holds.
    pub fn frames(&self) -> (r: usize)
        requires
            self.wf(),
        ensures
            r == self.spec_frames(),
    {
        self.samples.len() / (self.config.channels as usize)
    }
}

/// The source channel a target channel reads from: the same channel
/// while there is one, the last source channel beyond that.
pub open spec fn source_channel(k: int, in_channels: int) -> int {
    if k < in_channels {
        k
    } else {
        in_channels - 1
    }
}

/// The source frame a target frame reads from: the nearest earlier
/// frame under the rate change.
pub open spec fn source_frame(j: int, in_rate: int, out_rate: int) -> int {
    (j * in_rate) / out_rate
}

/// How many frames conversion of `b` to rate `out_rate` produces.
pub open spec fn converted_frames(b: FrameBatch, out_rate: int) -> int {
    (b.spec_frames() * out_rate) / (b.config.sample_rate as int)
}

/// The samples conversion of `b` to `t` produces: for each target
/// frame and channel, the sample of the source frame and channel it
/// reads from.
pub open spec fn convert_spec(b: FrameBatch, t: StreamConfig) -> Seq<i32> {
    Seq::new(
        (converted_frames(b, t.sample_rate as int) * (t.channels as int)) as nat,
        |idx: int|
            b.samples@[source_frame(idx / (t.channels as int), b.config.sample_rate as int, t.sample_rate as int)
                * (b.config.channels as int) + source_channel(
                idx % (t.channels as int),
                b.config.channels as int,
            )],
    )
}

/// A target frame earlier than the converted frame count reads from a
/// source frame the batch holds.
proof fn lemma_source_frame_in_range(frames: int, in_rate: int, out_rate: int, j: int)
    requires
        frames >= 0,
        in_rate >= 1,
        out_rate >= 1,
        0 <= j < (frames * out_rate) / in_rate,
    ensures
        0 <= source_frame(j, in_rate, out_rate) < frames,
{
    let q = (frames * out_rate) / in_rate;
    assert((j + 1) * in_rate <= q * in_rate) by {
        lemma_mul_inequality(j + 1, q, in_rate);
    }
    assert(q * in_rate <= frames * out_rate) by {
        lemma_fundamental_div_mod(frames * out_rate, in_rate);
        vstd::arithmetic::div_mod::lemma_mod_pos_bound(frames * out_rate, in_rate);
        assert(frames * out_rate == in_rate * q + (frames * out_rate) % in_rate);
        assert(in_rate * q == q * in_rate) by (nonlinear_arith);
    }
    assert((j + 1) * in_rate == j * in_rate + in_rate) by {
        lemma_mul_is_distributive_sub_other_way(in_rate, j + 1, 1);
    }
    assert(j * in_rate < frames * out_rate);
    assert(j * in_rate < out_rate * frames) by {
        assert(frames * out_rate == out_rate * frames) by (nonlinear_arith);
    }
    lemma_multiply_divide_lt(j * in_rate, out_rate, frames);
    assert((j * in_rate) / out_rate >= 0) by {
        assert(j * in_rate >= 0) by (nonlinear_arith)
            requires j >= 0 && in_rate >= 1;
    }
}

/// Converts a batch to the target configuration: nearest-earlier frame
/// selection for the rate change, channel repetition or truncation for
/// the channel change, a re-tag for the format change.
///
/// The converted batch is exactly [`convert_spec`]: in particular it
/// carries the target configuration, never the source's.
pub fn convert(batch: &FrameBatch, target: &StreamConfig) -> (r: FrameBatch)
    requires
        batch.wf(),
        target.wf(),
        converted_frames(*batch, target.sample_rate as int) * (target.channels as int)
            <= usize::MAX,
    ensures
        r.wf(),
        r.config == *target,
        r.samples@ == convert_spec(*batch, *target),
        r.spec_frames() == converted_frames(*batch, target.sample_rate as int),
{
    let in_channels = batch.config.channels as usize;
    let in_rate = batch.config.sample_rate;
    let out_rate = target.sample_rate;
    let out_channels = target.channels as usize;
    let frames = batch.frames();
    let n = batch.samples.len();
    proof {
        lemma_fundamental_div_mod(batch.samples@.len() as int, batch.config.channels as int);
        assert(batch.samples@.len() == (in_channels as int) * (frames as int));
    }
    proof {
        assert((frames as int) * (out_rate as int) <= u128::MAX as int) by (nonlinear_arith)
            requires
                (frames as int) >= 0,
                (frames as int) < 0x1_0000_0000_0000_0000,
                (out_rate as int) >= 0,
                (out_rate as int) < 0x1_0000_0000,
        ;
    }
    let out_frames_wide: u128 = frames as u128 * out_rate as u128 / in_rate as u128;
    proof {
        assert(out_frames_wide as int == converted_frames(*batch, out_rate as int));
        assert((out_frames_wide as int) * (out_channels as int) <= usize::MAX as int);
        assert(out_frames_wide as int <= (out_frames_wide as int) * (out_channels as int))
            by (nonlinear_arith)
            requires
                out_channels as int >= 1,
                out_frames_wide as int >= 0,
        ;
    }
    let out_frames: usize = out_frames_wide as usize;
    let total: usize = out_frames * out_channels;
    let ghost target_seq = convert_spec(*batch, *target);
    let mut out: Vec<i32> = Vec::new();
    let mut idx: usize = 0;
    while idx < total
        invariant
            batch.wf(),
            target.wf(),
            in_channels == batch.config.channels,
            in_rate == batch.config.sample_rate,
            out_rate == target.sample_rate,
            out_channels == target.channels,
            frames as int == batch.spec_frames(),
            batch.samples@.len() == (in_channels as int) * (frames as int),
            n == batch.samples@.len(),
            out_frames as int == converted_frames(*batch, out_rate as int),
            total == out_frames * out_channels,
            target_seq == convert_spec(*batch, *target),
            target_seq.len() == total,
            0 <= idx <= total,
            out@ == target_seq.take(idx as int),
        decreases total - idx,
    {
        let j: usize = idx / out_channels;
        let k: usize = idx % out_channels;
        proof {
            assert(j < out_frames) by {
                assert((idx as int) < (out_channels as int) * (out_frames as int))
                    by (nonlinear_arith)
                    requires
                        (idx as int) < (out_frames as int) * (out_channels as int);
                lemma_multiply_divide_lt(idx as int, out_channels as int, out_frames as int);
            }
            lemma_source_frame_in_range(frames as int, in_rate as int, out_rate as int, j as int);
            assert((j as int) * (in_rate as int) <= u128::MAX as int) by (nonlinear_arith)
                requires
                    (j as int) >= 0,
                    (j as int) < 0x1_0000_0000_0000_0000,
                    (in_rate as int) >= 0,
                    (in_rate as int) < 0x1_0000_0000,
            ;
        }
        let sf_wide: u128 = j as u128 * in_rate as u128 / out_rate as u128;
        proof {
            assert(sf_wide as int == source_frame(j as int, in_rate as int, out_rate as int));
            assert((sf_wide as int) < frames as int);
        }
        let sf: usize = sf_wide as usize;
        let sc: usize = if k < in_channels {
            k
        } else {
            in_channels - 1
        };
        proof {
            assert(sf * in_channels + sc < n) by (nonlinear_arith)
                requires
                    (sf as int) < (frames as int),
                    0 <= sc < in_channels,
                    (n as int) == (in_channels as int) * (frames as int),
                    in_channels >= 1;
        }
        let sample = batch.samples[sf * in_channels + sc];
        out.push(sample);
        proof {
            assert(sample == target_seq[idx as int]);
            assert(out@ =~= target_seq.take(idx + 1 as int));
        }
        idx = idx + 1;
    }
    proof {
        assert(out@ =~= target_seq);
        let ch = target.channels as int;
        let ofr = out_frames as int;
        assert(out@.len() == ofr * ch);
        vstd::arithmetic::div_mod::lemma_mod_multiples_basic(ofr, ch);
        vstd::arithmetic::div_mod::lemma_div_by_multiple(ofr, ch);
    }
    FrameBatch { config: *target, samples: out }
}

} // verus!
