use audio_redirect::config::{SampleFormat, StreamConfig, SupportedConfigRange};
use audio_redirect::errors::AudioError;
use audio_redirect::frames::FrameBatch;
use audio_redirect::session::{
    RedirectSession, SessionAction, SessionState, SinkResponse, SourceEvent, StopReason,
};
use audio_redirect::source::FileSource;

/// A sink that signals backpressure a fixed number of times before
/// accepting each submission, and records what it accepted.
struct MockSink {
    waits_per_batch: u32,
    waits_left: u32,
    accepted: Vec<FrameBatch>,
}

impl MockSink {
    fn new(waits_per_batch: u32) -> Self {
        MockSink { waits_per_batch, waits_left: waits_per_batch, accepted: Vec::new() }
    }

    fn submit_frame_batch(&mut self, batch: &FrameBatch) -> SinkResponse {
        if self.waits_left > 0 {
            self.waits_left -= 1;
            SinkResponse::BackpressureWait
        } else {
            self.waits_left = self.waits_per_batch;
            self.accepted.push(batch.clone());
            SinkResponse::Accepted
        }
    }
}

/// Drives a negotiated session until it finishes; returns how many
/// end-of-stream events the source reported.
fn run_session(source: &mut FileSource, session: &mut RedirectSession, sink: &mut MockSink) -> u32 {
    let mut ends: u32 = 0;
    let mut action = SessionAction::PullNext;
    while action != SessionAction::Finish {
        match action {
            SessionAction::PullNext => {
                let ev = source.next_frame_batch();
                if ev == SourceEvent::EndOfStream {
                    ends += 1;
                }
                action = session.on_source_event(ev);
            }
            SessionAction::SubmitPending => {
                let batch = session.pending_batch().as_ref().unwrap().clone();
                let resp = sink.submit_frame_batch(&batch);
                action = session.on_sink_response(resp);
            }
            SessionAction::Finish => unreachable!(),
        }
    }
    ends
}

fn source_cfg() -> StreamConfig {
    StreamConfig::new(48000, 2, SampleFormat::F32)
}

fn batch(samples: Vec<i32>) -> FrameBatch {
    FrameBatch::new(source_cfg(), samples)
}

fn start_session(session: &mut RedirectSession, supported: Vec<SupportedConfigRange>) {
    session.begin();
    session
        .negotiate_formats(&source_cfg(), &None, &supported)
        .expect("negotiation");
}

fn matching_sink() -> Vec<SupportedConfigRange> {
    vec![SupportedConfigRange::new(8000, 96000, 2, SampleFormat::F32)]
}

#[test]
fn lifecycle_reaches_streaming() {
    let mut session = RedirectSession::new();
    assert_eq!(session.state, SessionState::Created);
    session.begin();
    assert_eq!(session.state, SessionState::Negotiating);
    session
        .negotiate_formats(&source_cfg(), &None, &matching_sink())
        .expect("negotiation");
    assert_eq!(session.state, SessionState::Streaming);
}

#[test]
fn failed_negotiation_stops_the_session() {
    let mut session = RedirectSession::new();
    session.begin();
    let r = session.negotiate_formats(&source_cfg(), &None, &vec![]);
    assert_eq!(r.unwrap_err(), AudioError::NegotiationFailed);
    assert_eq!(
        session.state,
        SessionState::Stopped(StopReason::Failed(AudioError::NegotiationFailed))
    );
}

#[test]
fn backpressure_drops_nothing_and_keeps_order() {
    let mut session = RedirectSession::new();
    start_session(&mut session, matching_sink());
    let mut source = FileSource::new(
        source_cfg(),
        vec![batch(vec![1, 2]), batch(vec![3, 4]), batch(vec![5, 6])],
        None,
    );
    let mut sink = MockSink::new(4);
    run_session(&mut source, &mut session, &mut sink);
    assert_eq!(session.state, SessionState::Stopped(StopReason::Clean));
    assert_eq!(sink.accepted.len(), 3);
    assert_eq!(sink.accepted[0].samples, vec![1, 2]);
    assert_eq!(sink.accepted[1].samples, vec![3, 4]);
    assert_eq!(sink.accepted[2].samples, vec![5, 6]);
}

#[test]
fn backpressure_resubmits_the_same_batch() {
    let mut session = RedirectSession::new();
    start_session(&mut session, matching_sink());
    let action = session.on_source_event(SourceEvent::Batch(batch(vec![7, 8])));
    assert_eq!(action, SessionAction::SubmitPending);
    let before = session.pending_batch().clone();
    let action = session.on_sink_response(SinkResponse::BackpressureWait);
    assert_eq!(action, SessionAction::SubmitPending);
    assert_eq!(session.pending_batch(), &before);
    let action = session.on_sink_response(SinkResponse::Accepted);
    assert_eq!(action, SessionAction::PullNext);
    assert!(session.pending_batch().is_none());
}

#[test]
fn finite_source_ends_once_and_stops_cleanly() {
    let mut session = RedirectSession::new();
    start_session(&mut session, matching_sink());
    let mut source = FileSource::new(source_cfg(), vec![batch(vec![1, 2]), batch(vec![3, 4])], None);
    let mut sink = MockSink::new(0);
    let ends = run_session(&mut source, &mut session, &mut sink);
    assert_eq!(ends, 1);
    assert_eq!(session.state, SessionState::Stopped(StopReason::Clean));
    assert_eq!(sink.accepted.len(), 2);
}

#[test]
fn decode_failure_keeps_delivered_frames_and_carries_the_error() {
    let mut session = RedirectSession::new();
    start_session(&mut session, matching_sink());
    let mut source = FileSource::new(
        source_cfg(),
        vec![batch(vec![1, 2]), batch(vec![3, 4])],
        Some(AudioError::DecodeError(7)),
    );
    let mut sink = MockSink::new(1);
    run_session(&mut source, &mut session, &mut sink);
    assert_eq!(
        session.state,
        SessionState::Stopped(StopReason::Failed(AudioError::DecodeError(7)))
    );
    assert_eq!(sink.accepted.len(), 2);
    assert_eq!(sink.accepted[0].samples, vec![1, 2]);
    assert_eq!(sink.accepted[1].samples, vec![3, 4]);
}

#[test]
fn converted_batches_carry_the_negotiated_config() {
    let mut session = RedirectSession::new();
    let sink_only = vec![SupportedConfigRange::new(44100, 44100, 2, SampleFormat::I16)];
    session.begin();
    let n = session
        .negotiate_formats(&source_cfg(), &None, &sink_only)
        .expect("negotiation");
    assert!(n.conversion_required);
    assert_eq!(n.config, StreamConfig::new(44100, 2, SampleFormat::I16));
    let mut source = FileSource::new(
        source_cfg(),
        vec![batch(vec![1, 2, 3, 4, 5, 6, 7, 8]), batch(vec![9, 10])],
        None,
    );
    let mut sink = MockSink::new(2);
    run_session(&mut source, &mut session, &mut sink);
    assert_eq!(session.state, SessionState::Stopped(StopReason::Clean));
    for accepted in &sink.accepted {
        assert_eq!(accepted.config, n.config);
        assert_ne!(accepted.config.sample_rate, source_cfg().sample_rate);
    }
}

#[test]
fn sink_failure_stops_with_its_error() {
    let mut session = RedirectSession::new();
    start_session(&mut session, matching_sink());
    session.on_source_event(SourceEvent::Batch(batch(vec![1, 2])));
    let action = session.on_sink_response(SinkResponse::Failed(AudioError::DeviceUnavailable));
    assert_eq!(action, SessionAction::Finish);
    assert_eq!(
        session.state,
        SessionState::Stopped(StopReason::Failed(AudioError::DeviceUnavailable))
    );
}

#[test]
fn source_io_failure_is_surfaced() {
    let mut session = RedirectSession::new();
    start_session(&mut session, matching_sink());
    let action = session.on_source_event(SourceEvent::Failed(AudioError::IoError));
    assert_eq!(action, SessionAction::Finish);
    assert_eq!(session.state, SessionState::Stopped(StopReason::Failed(AudioError::IoError)));
}

#[test]
fn sink_rejection_is_surfaced() {
    let mut session = RedirectSession::new();
    start_session(&mut session, matching_sink());
    session.on_source_event(SourceEvent::Batch(batch(vec![1, 2])));
    session.on_sink_response(SinkResponse::Failed(AudioError::ConfigurationRejected));
    assert_eq!(
        session.state,
        SessionState::Stopped(StopReason::Failed(AudioError::ConfigurationRejected))
    );
}

#[test]
fn external_stop_is_clean() {
    let mut session = RedirectSession::new();
    start_session(&mut session, matching_sink());
    session.stop();
    assert_eq!(session.state, SessionState::Stopped(StopReason::Clean));
}

#[test]
fn exhausted_source_keeps_reporting_its_end() {
    let mut source = FileSource::new(source_cfg(), vec![batch(vec![1, 2])], None);
    assert!(matches!(source.next_frame_batch(), SourceEvent::Batch(_)));
    assert_eq!(source.next_frame_batch(), SourceEvent::EndOfStream);
    assert_eq!(source.next_frame_batch(), SourceEvent::EndOfStream);
}

#[test]
fn decode_error_is_reported_once() {
    let mut source = FileSource::new(source_cfg(), vec![], Some(AudioError::UnsupportedFormat));
    assert_eq!(source.next_frame_batch(), SourceEvent::Failed(AudioError::UnsupportedFormat));
    assert_eq!(source.next_frame_batch(), SourceEvent::EndOfStream);
}
