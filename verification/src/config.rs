//! Stream configurations: sample rate, channel count and sample format,
//! and the ranges of configurations a device reports as supported.

use vstd::prelude::*;

verus! {

/// Encoding of a single sample on the wire.
///
/// The library stores samples uniformly as signed 32-bit fixed-point
/// values; this tag records how a stream encodes them outside the
/// library.
#[derive(Clone, Copy, Debug, PartialEq, Eq, Structural)]
pub enum SampleFormat {
    /// Signed 16-bit integer samples.
    I16,
    /// Unsigned 16-bit integer samples.
    U16,
    /// 32-bit floating point samples.
    F32,
}

/// One concrete stream configuration.
#[derive(Clone, Copy, Debug, PartialEq, Eq, Structural)]
pub struct StreamConfig {
    /// Samples per second per channel. Always positive.
    pub sample_rate: u32,
    /// Interleaved channels per frame. Always positive.
    pub channels: u16,
    /// Sample encoding.
    pub format: SampleFormat,
}

impl StreamConfig {
    /// A configuration is well formed when its rate and channel count
    /// are positive.
    pub open spec fn wf(self) -> bool {
        self.sample_rate >= 1 && self.channels >= 1
    }

    /// Builds a configuration.
    pub fn new(sample_rate: u32, channels: u16, format: SampleFormat) -> (r: Self)
        requires
            sample_rate >= 1,
            channels >= 1,
        ensures
            r == (StreamConfig { sample_rate, channels, format }),
            r.wf(),
    {
        StreamConfig { sample_rate, channels, format }
    }
}

/// A contiguous range of supported configurations, as devices report
/// them: one channel count and format, with a span of sample rates.
#[derive(Clone, Copy, Debug, PartialEq, Eq, Structural)]
pub struct SupportedConfigRange {
    /// Lowest supported sample rate. Always positive.
    pub min_sample_rate: u32,
    /// Highest supported sample rate. At least `min_sample_rate`.
    pub max_sample_rate: u32,
    /// Channel count of every configuration in the range.
    pub channels: u16,
    /// Sample encoding of every configuration in the range.
    pub format: SampleFormat,
}

impl SupportedConfigRange {
    /// A range is well formed when its bounds are ordered and positive.
    pub open spec fn wf(self) -> bool {
        1 <= self.min_sample_rate && self.min_sample_rate <= self.max_sample_rate
            && self.channels >= 1
    }

    /// Whether `c` falls inside this range.
    pub open spec fn contains(self, c: StreamConfig) -> bool {
        c.channels == self.channels && c.format == self.format
            && self.min_sample_rate <= c.sample_rate && c.sample_rate <= self.max_sample_rate
    }

    /// Builds a range.
    pub fn new(min_sample_rate: u32, max_sample_rate: u32, channels: u16, format: SampleFormat) -> (r: Self)
        requires
            1 <= min_sample_rate,
            min_sample_rate <= max_sample_rate,
            channels >= 1,
        ensures
            r == (SupportedConfigRange { min_sample_rate, max_sample_rate, channels, format }),
            r.wf(),
    {
        SupportedConfigRange { min_sample_rate, max_sample_rate, channels, format }
    }

    /// Executable form of [`Self::contains`].
    pub fn supports(&self, c: &StreamConfig) -> (r: bool)
        ensures
            r == self.contains(*c),
    {
        c.channels == self.channels && c.format == self.format
            && self.min_sample_rate <= c.sample_rate && c.sample_rate <= self.max_sample_rate
    }
}

/// Whether some range in `ranges` contains `c`.
pub open spec fn ranges_support(ranges: Seq<SupportedConfigRange>, c: StreamConfig) -> bool {
    exists|i: int| 0 <= i < ranges.len() && ranges[i].contains(c)
}

/// All ranges in `ranges` are well formed.
pub open spec fn ranges_wf(ranges: Seq<SupportedConfigRange>) -> bool {
    forall|i: int| 0 <= i < ranges.len() ==> ranges[i].wf()
}

/// Whether any of `ranges` contains `c`: the executable membership test
/// a sink's supported set is probed with.
pub fn is_supported(ranges: &Vec<SupportedConfigRange>, c: &StreamConfig) -> (r: bool)
    ensures
        r == ranges_support(ranges@, *c),
{
    let mut i: usize = 0;
    while i < ranges.len()
        invariant
            0 <= i <= ranges.len(),
            forall|j: int| 0 <= j < i ==> !ranges@[j].contains(*c),
        decreases ranges.len() - i,
    {
        if ranges[i].supports(c) {
            return true;
        }
        i = i + 1;
    }
    false
}

} // verus!
