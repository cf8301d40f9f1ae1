//! The redirection session: one source wired to one sink under one
//! negotiated configuration.
//!
//! The session is an explicit state machine. The caller runs the I/O
//! loop: it feeds the session source events and sink responses and
//! performs the action the session asks for next. The session decides
//! everything else — negotiation, conversion, pacing under
//! backpressure, and when the run is over — and its ghost history
//! carries the proof that batches are delivered exactly in production
//! order, converted to the negotiated configuration, with none dropped
//! and none rolled back.

use vstd::prelude::*;
use crate::config::{StreamConfig, SupportedConfigRange, ranges_support, ranges_wf};
use crate::errors::AudioError;
use crate::frames::{FrameBatch, convert, convert_spec, converted_frames};
use crate::negotiate::{Negotiated, negotiate, negotiation_spec};

verus! {

/// One answer of a stream source to a pull.
#[derive(Clone, Debug, PartialEq, Eq)]
pub enum SourceEvent {
    /// The next batch of frames, at the source's native configuration.
    Batch(FrameBatch),
    /// The source is exhausted; no further batch will come.
    EndOfStream,
    /// The source failed; the error ends the session.
    Failed(AudioError),
}

/// One answer of a stream sink to a submission.
#[derive(Clone, Debug, PartialEq, Eq)]
pub enum SinkResponse {
    /// The batch was taken; the next one may be submitted.
    Accepted,
    /// The sink's buffer is full; resubmit the same batch later. A
    /// scheduling signal, not an error.
    BackpressureWait,
    /// The sink failed; the error ends the session.
    Failed(AudioError),
}

/// Why a session stopped.
#[derive(Clone, Debug, PartialEq, Eq)]
pub enum StopReason {
    /// The source was exhausted, or an external stop was requested.
    Clean,
    /// A source or sink failure, carried for diagnostics.
    Failed(AudioError),
}

/// The lifecycle of a session. There is no way back out of `Stopped`;
/// a new session must be created to retry.
#[derive(Clone, Debug, PartialEq, Eq)]
pub enum SessionState {
    /// Just created; formats not negotiated yet.
    Created,
    /// Negotiation may now take place.
    Negotiating,
    /// Frames are being transferred.
    Streaming,
    /// The session is over.
    Stopped(StopReason),
}

/// What the caller's loop must do next.
#[derive(Clone, Copy, Debug, PartialEq, Eq, Structural)]
pub enum SessionAction {
    /// Submit the pending batch to the sink and report the response.
    SubmitPending,
    /// Pull the next event from the source and report it.
    PullNext,
    /// The session is over: close source and sink cleanly.
    Finish,
}

/// Whether `out` is exactly the conversion of `src` to `cfg`.
pub open spec fn batch_converted(src: FrameBatch, cfg: StreamConfig, out: FrameBatch) -> bool {
    out.config == cfg && out.samples@ == convert_spec(src, cfg)
}

/// A redirection session.
pub struct RedirectSession {
    /// Where in its lifecycle the session is.
    pub state: SessionState,
    /// The negotiated outcome, once negotiation succeeded.
    pub negotiated: Option<Negotiated>,
    /// The converted batch awaiting the sink's acceptance, if any.
    pub pending: Option<FrameBatch>,
    /// The sink's supported set the session negotiated against.
    pub sink_supported: Ghost<Seq<SupportedConfigRange>>,
    /// Every batch the source produced, in order.
    pub produced: Ghost<Seq<FrameBatch>>,
    /// Every batch the sink accepted, in order.
    pub delivered: Ghost<Seq<FrameBatch>>,
}

impl RedirectSession {
    /// The configuration the session transfers frames under.
    pub open spec fn spec_config(self) -> StreamConfig {
        self.negotiated->Some_0.config
    }

    /// Every accepted batch is the conversion of the produced batch of
    /// the same rank: delivery in production order, none dropped, none
    /// duplicated, all under configuration `cfg`.
    pub open spec fn deliveries_converted(self, cfg: StreamConfig) -> bool {
        forall|i: int| 0 <= i < self.delivered@.len() ==> batch_converted(
            self.produced@[i],
            cfg,
            #[trigger] self.delivered@[i],
        )
    }

    /// The session invariant.
    pub open spec fn wf(self) -> bool {
        match self.state {
            SessionState::Created => {
                &&& self.negotiated is None
                &&& self.pending is None
                &&& self.produced@.len() == 0
                &&& self.delivered@.len() == 0
            },
            SessionState::Negotiating => {
                &&& self.negotiated is None
                &&& self.pending is None
                &&& self.produced@.len() == 0
                &&& self.delivered@.len() == 0
            },
            SessionState::Streaming => {
                &&& self.negotiated matches Some(n) && {
                    &&& n.config.wf()
                    &&& ranges_support(self.sink_supported@, n.config)
                    &&& self.deliveries_converted(n.config)
                    &&& match self.pending {
                        Some(p) => {
                            &&& self.produced@.len() == self.delivered@.len() + 1
                            &&& batch_converted(self.produced@.last(), n.config, p)
                            &&& p.wf()
                        },
                        None => self.produced@.len() == self.delivered@.len(),
                    }
                }
            },
            SessionState::Stopped(_) => {
                &&& self.pending is None
                &&& self.delivered@.len() <= self.produced@.len() <= self.delivered@.len() + 1
                &&& (self.negotiated matches Some(n) ==> self.deliveries_converted(n.config))
            },
        }
    }

    /// Creates a session, ready to negotiate.
    pub fn new() -> (r: RedirectSession)
        ensures
            r.wf(),
            r.state == SessionState::Created,
            r.produced@.len() == 0,
            r.delivered@.len() == 0,
    {
        RedirectSession {
            state: SessionState::Created,
            negotiated: None,
            pending: None,
            sink_supported: Ghost(Seq::empty()),
            produced: Ghost(Seq::empty()),
            delivered: Ghost(Seq::empty()),
        }
    }

    /// Enters negotiation.
    pub fn begin(&mut self)
        requires
            old(self).wf(),
            old(self).state == SessionState::Created,
        ensures
            final(self).wf(),
            final(self).state == SessionState::Negotiating,
            final(self).produced@.len() == 0,
            final(self).delivered@.len() == 0,
    {
        self.state = SessionState::Negotiating;
    }

    /// Negotiates the session configuration against the sink's default
    /// and supported configurations. On success the session starts
    /// streaming under the outcome; on failure it stops with
    /// `NegotiationFailed`, which happens exactly when the sink
    /// supports nothing.
    pub fn negotiate_formats(
        &mut self,
        source: &StreamConfig,
        sink_default: &Option<StreamConfig>,
        sink_supported: &Vec<SupportedConfigRange>,
    ) -> (r: Result<Negotiated, AudioError>)
        requires
            old(self).wf(),
            old(self).state == SessionState::Negotiating,
            source.wf(),
            ranges_wf(sink_supported@),
        ensures
            final(self).wf(),
            final(self).sink_supported@ == sink_supported@,
            final(self).produced@.len() == 0,
            final(self).delivered@.len() == 0,
            match r {
                Ok(n) => {
                    &&& negotiation_spec(*source, *sink_default, sink_supported@, n)
                    &&& final(self).state == SessionState::Streaming
                    &&& final(self).negotiated == Some(n)
                },
                Err(e) => {
                    &&& e == AudioError::NegotiationFailed
                    &&& sink_supported@.len() == 0
                    &&& final(self).state == SessionState::Stopped(
                        StopReason::Failed(AudioError::NegotiationFailed),
                    )
                },
            },
    {
        self.sink_supported = Ghost(sink_supported@);
        match negotiate(source, sink_default, sink_supported) {
            Ok(n) => {
                self.negotiated = Some(n);
                self.state = SessionState::Streaming;
                Ok(n)
            },
            Err(e) => {
                self.state = SessionState::Stopped(
                    StopReason::Failed(AudioError::NegotiationFailed),
                );
                Err(e)
            },
        }
    }

    /// Takes the next source event while streaming and nothing is
    /// pending at the sink.
    ///
    /// A batch is converted to the negotiated configuration and held
    /// for submission. End of stream stops the session cleanly — the
    /// one end the source reports ends the session, so no batch can
    /// follow it. A source failure stops the session with its error,
    /// and what was already delivered stays delivered: there is no
    /// rollback.
    pub fn on_source_event(&mut self, ev: SourceEvent) -> (r: SessionAction)
        requires
            old(self).wf(),
            old(self).state == SessionState::Streaming,
            old(self).pending is None,
            ev matches SourceEvent::Batch(b) ==> b.wf() && converted_frames(
                b,
                old(self).spec_config().sample_rate as int,
            ) * (old(self).spec_config().channels as int) <= usize::MAX,
        ensures
            final(self).wf(),
            final(self).negotiated == old(self).negotiated,
            final(self).sink_supported == old(self).sink_supported,
            final(self).delivered == old(self).delivered,
            match ev {
                SourceEvent::Batch(b) => {
                    &&& final(self).state == SessionState::Streaming
                    &&& final(self).produced@ == old(self).produced@.push(b)
                    &&& final(self).pending matches Some(p) && batch_converted(
                        b,
                        old(self).spec_config(),
                        p,
                    )
                    &&& r == SessionAction::SubmitPending
                },
                SourceEvent::EndOfStream => {
                    &&& final(self).state == SessionState::Stopped(StopReason::Clean)
                    &&& final(self).produced == old(self).produced
                    &&& final(self).pending is None
                    &&& r == SessionAction::Finish
                },
                SourceEvent::Failed(e) => {
                    &&& final(self).state == SessionState::Stopped(StopReason::Failed(e))
                    &&& final(self).produced == old(self).produced
                    &&& final(self).pending is None
                    &&& r == SessionAction::Finish
                },
            },
    {
        match ev {
            SourceEvent::Batch(b) => {
                let cfg = self.negotiated.as_ref().unwrap().config;
                let converted = convert(&b, &cfg);
                self.produced = Ghost(self.produced@.push(b));
                self.pending = Some(converted);
                SessionAction::SubmitPending
            },
            SourceEvent::EndOfStream => {
                self.state = SessionState::Stopped(StopReason::Clean);
                SessionAction::Finish
            },
            SourceEvent::Failed(e) => {
                self.state = SessionState::Stopped(StopReason::Failed(e));
                SessionAction::Finish
            },
        }
    }

    /// Takes the sink's response to the pending batch.
    ///
    /// Acceptance appends the batch to the delivered history, in
    /// order. Backpressure is not an error: the session keeps the very
    /// same batch pending and asks for it to be submitted again, so
    /// nothing is dropped however often the sink asks to wait. A sink
    /// failure stops the session with its error; delivered batches
    /// stay delivered.
    pub fn on_sink_response(&mut self, resp: SinkResponse) -> (r: SessionAction)
        requires
            old(self).wf(),
            old(self).state == SessionState::Streaming,
            old(self).pending is Some,
        ensures
            final(self).wf(),
            final(self).negotiated == old(self).negotiated,
            final(self).sink_supported == old(self).sink_supported,
            final(self).produced == old(self).produced,
            match resp {
                SinkResponse::Accepted => {
                    &&& final(self).state == SessionState::Streaming
                    &&& final(self).delivered@ == old(self).delivered@.push(
                        old(self).pending->Some_0,
                    )
                    &&& final(self).pending is None
                    &&& r == SessionAction::PullNext
                },
                SinkResponse::BackpressureWait => {
                    &&& *final(self) == *old(self)
                    &&& r == SessionAction::SubmitPending
                },
                SinkResponse::Failed(e) => {
                    &&& final(self).state == SessionState::Stopped(StopReason::Failed(e))
                    &&& final(self).delivered == old(self).delivered
                    &&& final(self).pending is None
                    &&& r == SessionAction::Finish
                },
            },
    {
        match resp {
            SinkResponse::Accepted => {
                let p = self.pending.take().unwrap();
                self.delivered = Ghost(self.delivered@.push(p));
                SessionAction::PullNext
            },
            SinkResponse::BackpressureWait => SessionAction::SubmitPending,
            SinkResponse::Failed(e) => {
                self.pending = None;
                self.state = SessionState::Stopped(StopReason::Failed(e));
                SessionAction::Finish
            },
        }
    }

    /// The batch awaiting submission, if any.
    pub fn pending_batch(&self) -> (r: &Option<FrameBatch>)
        ensures
            r == &self.pending,
    {
        &self.pending
    }

    /// Stops the session on an external signal, before the sink took
    /// whatever was still pending: a cooperative cancellation.
    pub fn stop(&mut self)
        requires
            old(self).wf(),
            !(old(self).state matches SessionState::Stopped(_)),
        ensures
            final(self).wf(),
            final(self).state == SessionState::Stopped(StopReason::Clean),
            final(self).produced == old(self).produced,
            final(self).delivered == old(self).delivered,
    {
        self.pending = None;
        self.state = SessionState::Stopped(StopReason::Clean);
    }
}

/// Frames flow only under the negotiated configuration: while a
/// session streams, its configuration lies in the sink's supported
/// set, the batch pending at the sink carries it, and so does every
/// batch the sink ever accepted. In particular, when conversion was
/// negotiated, no batch is ever submitted at the source's native
/// configuration.
pub proof fn lemma_streaming_stays_supported(s: RedirectSession)
    requires
        s.wf(),
        s.state == SessionState::Streaming,
    ensures
        ranges_support(s.sink_supported@, s.spec_config()),
        s.pending matches Some(p) ==> p.config == s.spec_config(),
        forall|i: int| 0 <= i < s.delivered@.len() ==> (#[trigger] s.delivered@[i]).config
            == s.spec_config(),
{
}

/// Delivery is lossless and ordered: at every point of a session's
/// life, what the sink accepted is exactly the converted form of the
/// first accepted-many batches the source produced, rank by rank —
/// backpressure retries delay delivery but never drop, duplicate or
/// reorder a batch, and a failure never rolls a delivered batch back.
pub proof fn lemma_delivery_lossless(s: RedirectSession)
    requires
        s.wf(),
        s.negotiated matches Some(n),
        !(s.state matches SessionState::Created),
        !(s.state matches SessionState::Negotiating),
    ensures
        s.delivered@.len() <= s.produced@.len() <= s.delivered@.len() + 1,
        forall|i: int| 0 <= i < s.delivered@.len() ==> batch_converted(
            s.produced@[i],
            s.spec_config(),
            #[trigger] s.delivered@[i],
        ),
{
}

} // verus!
