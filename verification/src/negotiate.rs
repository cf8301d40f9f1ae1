//! Format negotiation: picking the one stream configuration a
//! redirection session runs under.
//!
//! The sink's exact support of the source's native configuration wins
//! (zero-conversion path); otherwise the sink's default configuration
//! is taken when the sink supports it; otherwise the closest supported
//! configuration, preferring a matching channel count and then the
//! nearest sample rate, ties resolved to the earliest range. A sink
//! with no supported configurations cannot be negotiated with.

use vstd::prelude::*;
use crate::config::{
    StreamConfig, SupportedConfigRange, is_supported, ranges_support, ranges_wf,
};
use crate::errors::AudioError;

verus! {

/// Outcome of a successful negotiation.
#[derive(Clone, Copy, Debug, PartialEq, Eq, Structural)]
pub struct Negotiated {
    /// The configuration every frame batch is submitted under.
    pub config: StreamConfig,
    /// Whether source batches must be converted before submission.
    pub conversion_required: bool,
}

/// The source's sample rate clamped into the range's span: the nearest
/// rate the range supports.
pub open spec fn clamped_rate(range: SupportedConfigRange, rate: u32) -> u32 {
    if rate < range.min_sample_rate {
        range.min_sample_rate
    } else if rate > range.max_sample_rate {
        range.max_sample_rate
    } else {
        rate
    }
}

/// The configuration a range offers for a given source configuration:
/// the range's channel count and format at the nearest supported rate.
pub open spec fn candidate(range: SupportedConfigRange, source: StreamConfig) -> StreamConfig {
    StreamConfig {
        sample_rate: clamped_rate(range, source.sample_rate),
        channels: range.channels,
        format: range.format,
    }
}

/// Distance between the range's nearest rate and the source's rate.
pub open spec fn rate_distance(range: SupportedConfigRange, source: StreamConfig) -> int {
    if clamped_rate(range, source.sample_rate) >= source.sample_rate {
        clamped_rate(range, source.sample_rate) - source.sample_rate
    } else {
        source.sample_rate - clamped_rate(range, source.sample_rate)
    }
}

/// Closeness of a range to the source configuration, smaller is
/// better: a mismatched channel count outweighs any rate distance.
pub open spec fn closeness(range: SupportedConfigRange, source: StreamConfig) -> int {
    (if range.channels == source.channels {
        0int
    } else {
        0x1_0000_0000int
    }) + rate_distance(range, source)
}

/// Whether `i` is the earliest closest range to `source` in `ranges`.
pub open spec fn is_closest_index(
    ranges: Seq<SupportedConfigRange>,
    source: StreamConfig,
    i: int,
) -> bool {
    &&& 0 <= i < ranges.len()
    &&& forall|j: int| 0 <= j < ranges.len() ==> closeness(ranges[i], source) <= closeness(
        ranges[j],
        source,
    )
    &&& forall|j: int| 0 <= j < i ==> closeness(ranges[j], source) > closeness(ranges[i], source)
}

/// Whether `c` is the configuration the closest-range rule selects:
/// the candidate of the earliest closest range.
pub open spec fn is_closest_choice(
    ranges: Seq<SupportedConfigRange>,
    source: StreamConfig,
    c: StreamConfig,
) -> bool {
    exists|i: int| is_closest_index(ranges, source, i) && c == candidate(ranges[i], source)
}

/// What a successful negotiation promises: the outcome lies in the
/// sink's supported set, requires conversion exactly when the sink
/// does not support the source's native configuration, and is the
/// configuration the negotiation rule selects.
pub open spec fn negotiation_spec(
    source: StreamConfig,
    sink_default: Option<StreamConfig>,
    sink_supported: Seq<SupportedConfigRange>,
    n: Negotiated,
) -> bool {
    &&& ranges_support(sink_supported, n.config)
    &&& n.config.wf()
    &&& n.conversion_required == !ranges_support(sink_supported, source)
    &&& if ranges_support(sink_supported, source) {
        n.config == source
    } else {
        match sink_default {
            Some(d) => if ranges_support(sink_supported, d) {
                n.config == d
            } else {
                is_closest_choice(sink_supported, source, n.config)
            },
            None => is_closest_choice(sink_supported, source, n.config),
        }
    }
}

/// Executable form of [`closeness`].
fn closeness_of(range: &SupportedConfigRange, source: &StreamConfig) -> (r: u64)
    ensures
        r == closeness(*range, *source),
{
    let clamped: u32 = if source.sample_rate < range.min_sample_rate {
        range.min_sample_rate
    } else if source.sample_rate > range.max_sample_rate {
        range.max_sample_rate
    } else {
        source.sample_rate
    };
    let dist: u64 = if clamped >= source.sample_rate {
        (clamped - source.sample_rate) as u64
    } else {
        (source.sample_rate - clamped) as u64
    };
    let mismatch: u64 = if range.channels == source.channels {
        0
    } else {
        0x1_0000_0000
    };
    mismatch + dist
}

/// Negotiates the session configuration between a source's native
/// configuration and a sink's default and supported configurations.
///
/// Succeeds whenever the sink supports anything at all; fails with
/// `NegotiationFailed` exactly when the sink's supported set is empty.
/// A successful outcome always lies within the sink's supported set,
/// and requires conversion exactly when the sink does not support the
/// source's native configuration.
pub fn negotiate(
    source: &StreamConfig,
    sink_default: &Option<StreamConfig>,
    sink_supported: &Vec<SupportedConfigRange>,
) -> (r: Result<Negotiated, AudioError>)
    requires
        source.wf(),
        ranges_wf(sink_supported@),
    ensures
        match r {
            Ok(n) => negotiation_spec(*source, *sink_default, sink_supported@, n),
            Err(e) => e == AudioError::NegotiationFailed && sink_supported@.len() == 0,
        },
{
    if is_supported(sink_supported, source) {
        return Ok(Negotiated { config: *source, conversion_required: false });
    }
    if let Some(d) = sink_default {
        if is_supported(sink_supported, d) {
            return Ok(Negotiated { config: *d, conversion_required: true });
        }
    }
    if sink_supported.len() == 0 {
        return Err(AudioError::NegotiationFailed);
    }
    let mut best: usize = 0;
    let mut best_score: u64 = closeness_of(&sink_supported[0], source);
    let mut i: usize = 1;
    while i < sink_supported.len()
        invariant
            0 <= best < i <= sink_supported@.len(),
            best_score == closeness(sink_supported@[best as int], *source),
            forall|j: int| 0 <= j < i ==> best_score <= closeness(sink_supported@[j], *source),
            forall|j: int| 0 <= j < best ==> closeness(sink_supported@[j], *source) > best_score,
        decreases sink_supported@.len() - i,
    {
        let score = closeness_of(&sink_supported[i], source);
        if score < best_score {
            best = i;
            best_score = score;
        }
        i = i + 1;
    }
    let range = &sink_supported[best];
    let clamped: u32 = if source.sample_rate < range.min_sample_rate {
        range.min_sample_rate
    } else if source.sample_rate > range.max_sample_rate {
        range.max_sample_rate
    } else {
        source.sample_rate
    };
    let config = StreamConfig {
        sample_rate: clamped,
        channels: range.channels,
        format: range.format,
    };
    proof {
        assert(is_closest_index(sink_supported@, *source, best as int));
        assert(config == candidate(sink_supported@[best as int], *source));
        assert(sink_supported@[best as int].contains(config));
    }
    Ok(Negotiated { config, conversion_required: true })
}

} // verus!
