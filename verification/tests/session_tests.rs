use pipewire::queue::Queue;
use pipewire::session::{
    change_stream_node, AudioFormat, CaptureSession, EStream, ParamChangeOutcome, ParamPayload,
    ProcessStatus, SampleEncoding, SessionState, StreamCore, StreamEvent, ENUM_FORMAT_PARAM_ID,
    MEDIA_SUBTYPE_RAW, MEDIA_TYPE_AUDIO, PARAM_KIND_FORMAT,
};

fn fresh_stream() -> EStream<u8> {
    EStream::new(StreamCore { core_slot: 0, receiver: Queue::new(), data: 0u8 })
}

fn format_payload(rate: u32, channels: u32) -> ParamPayload {
    ParamPayload {
        param_kind: PARAM_KIND_FORMAT,
        media_type: MEDIA_TYPE_AUDIO,
        media_subtype: MEDIA_SUBTYPE_RAW,
        format: Some(AudioFormat { rate, channels }),
    }
}

fn samples_as_bytes(samples: &[f32]) -> Vec<u8> {
    let mut bytes = Vec::new();
    for s in samples {
        bytes.extend_from_slice(&s.to_le_bytes());
    }
    bytes
}

fn negotiated(channels: u32) -> EStream<u8> {
    let mut es = fresh_stream();
    es.create_stream(None);
    let p = format_payload(44100, channels);
    assert_eq!(es.on_param_changed(Some(&p)), ParamChangeOutcome::Accepted);
    es
}

#[test]
fn connect_targets_default_route_with_realtime_flags() {
    let mut es = fresh_stream();
    assert_eq!(es.session.state, SessionState::Unconnected);
    let req = es.create_stream(None);
    assert_eq!(req.target, 0);
    assert!(req.autoconnect && req.map_buffers && req.rt_process);
    assert_eq!(req.params.object_id, ENUM_FORMAT_PARAM_ID);
    assert_eq!(req.params.encoding, SampleEncoding::F32Le);
    assert_eq!(es.session.state, SessionState::Connected);
    assert_eq!(es.session.target, Some(0));
}

#[test]
fn connect_targets_chosen_node() {
    let mut es = fresh_stream();
    let req = es.create_stream(Some(9));
    assert_eq!(req.target, 9);
    assert_eq!(es.session.target, Some(9));
}

#[test]
fn null_payload_is_cleared() {
    let mut es = fresh_stream();
    es.create_stream(None);
    assert_eq!(es.on_param_changed(None), ParamChangeOutcome::Cleared);
    assert_eq!(es.session.format, None);
}

#[test]
fn other_parameter_kinds_are_ignored() {
    let mut es = fresh_stream();
    es.create_stream(None);
    let mut p = format_payload(48000, 2);
    p.param_kind = PARAM_KIND_FORMAT + 1;
    assert_eq!(es.on_param_changed(Some(&p)), ParamChangeOutcome::Ignored);
    assert_eq!(es.session.format, None);
    assert_eq!(es.session.state, SessionState::Connected);
}

#[test]
fn non_raw_audio_is_ignored() {
    let mut es = fresh_stream();
    es.create_stream(None);
    let mut video = format_payload(48000, 2);
    video.media_type = MEDIA_TYPE_AUDIO + 1;
    assert_eq!(es.on_param_changed(Some(&video)), ParamChangeOutcome::Ignored);
    let mut encoded = format_payload(48000, 2);
    encoded.media_subtype = MEDIA_SUBTYPE_RAW + 1;
    assert_eq!(es.on_param_changed(Some(&encoded)), ParamChangeOutcome::Ignored);
    assert_eq!(es.session.format, None);
}

#[test]
fn malformed_format_is_skipped_not_fatal() {
    let mut es = fresh_stream();
    es.create_stream(None);
    let mut p = format_payload(48000, 2);
    p.format = None;
    assert_eq!(es.on_param_changed(Some(&p)), ParamChangeOutcome::Malformed);
    assert_eq!(es.session.state, SessionState::Connected);
    assert_eq!(es.session.format, None);
}

#[test]
fn accepted_format_moves_session_to_streaming() {
    let mut es = fresh_stream();
    es.create_stream(None);
    let p = format_payload(44100, 2);
    assert_eq!(es.on_param_changed(Some(&p)), ParamChangeOutcome::Accepted);
    assert_eq!(es.session.state, SessionState::Streaming);
    assert_eq!(es.session.format, Some(AudioFormat { rate: 44100, channels: 2 }));
}

#[test]
fn rebind_builds_params_for_new_target() {
    let mut session = CaptureSession {
        state: SessionState::Streaming,
        target: Some(0),
        format: None,
        cursor_move: false,
    };
    let p = change_stream_node(&mut session, 11);
    assert_eq!(p.object_id, 11);
    assert_eq!(p.encoding, SampleEncoding::F32Le);
    assert_eq!(session.target, Some(11));
}

#[test]
fn drained_batch_applies_only_last_command() {
    // Commands [7, 3, 9] queued before one process invocation: the final
    // target is 9, and exactly one rebind is reported.
    let mut es = negotiated(1);
    es.receiver.push(StreamEvent::UpdateObjID(7));
    es.receiver.push(StreamEvent::UpdateObjID(3));
    es.receiver.push(StreamEvent::UpdateObjID(9));
    let report = es.process(None);
    assert_eq!(report.rebind, Some(9));
    assert_eq!(report.params.map(|p| p.object_id), Some(9));
    assert_eq!(es.session.target, Some(9));
    assert!(es.receiver.is_empty());
}

#[test]
fn process_returns_at_once_without_commands_or_buffer() {
    // Empty inbound queue and no buffer available: the callback reports the
    // transient condition and changes nothing.
    let mut es = negotiated(2);
    let before_target = es.session.target;
    let report = es.process(None);
    assert_eq!(report.status, ProcessStatus::NoBuffer);
    assert_eq!(report.rebind, None);
    assert!(report.params.is_none());
    assert!(report.peaks.is_empty());
    assert_eq!(es.session.target, before_target);
    assert!(!es.session.cursor_move);
}

#[test]
fn empty_plane_skips_rendering() {
    let mut es = negotiated(2);
    let empty: Vec<u8> = Vec::new();
    let report = es.process(Some(&empty));
    assert_eq!(report.status, ProcessStatus::SkippedEmpty);
    assert!(report.peaks.is_empty());
    assert!(!es.session.cursor_move);
}

#[test]
fn single_channel_peak_is_largest_magnitude() {
    // Samples [0.1, -0.5, 0.3] on one channel peak at 0.5.
    let mut es = negotiated(1);
    let bytes = samples_as_bytes(&[0.1, -0.5, 0.3]);
    let report = es.process(Some(&bytes));
    assert_eq!(report.status, ProcessStatus::Rendered);
    assert_eq!(report.peaks.len(), 1);
    assert_eq!(f32::from_bits(report.peaks[0]), 0.5);
    assert!(es.session.cursor_move);
}

#[test]
fn all_zero_block_peaks_at_zero() {
    let mut es = negotiated(1);
    let bytes = samples_as_bytes(&[0.0; 17]);
    let report = es.process(Some(&bytes));
    assert_eq!(report.status, ProcessStatus::Rendered);
    assert_eq!(report.peaks.len(), 1);
    assert_eq!(f32::from_bits(report.peaks[0]), 0.0);
}

#[test]
fn rendered_peak_is_never_undefined() {
    // A quiet-NaN sample is skipped, as the realtime display's float
    // maximum would skip it; the peak comes from the remaining samples.
    let mut es = negotiated(1);
    let bytes = samples_as_bytes(&[0.1, f32::NAN, -0.5, 0.3]);
    let report = es.process(Some(&bytes));
    assert_eq!(report.status, ProcessStatus::Rendered);
    assert_eq!(f32::from_bits(report.peaks[0]), 0.5);
    assert!(!f32::from_bits(report.peaks[0]).is_nan());
}

#[test]
fn peaks_deinterleave_by_channel() {
    // Two channels interleaved: left samples 0.25, -0.75; right 0.5, 0.125.
    let mut es = negotiated(2);
    let bytes = samples_as_bytes(&[0.25, 0.5, -0.75, 0.125]);
    let report = es.process(Some(&bytes));
    assert_eq!(report.status, ProcessStatus::Rendered);
    assert_eq!(report.peaks.len(), 2);
    assert_eq!(f32::from_bits(report.peaks[0]), 0.75);
    assert_eq!(f32::from_bits(report.peaks[1]), 0.5);
}

#[test]
fn rebind_and_buffer_in_one_invocation() {
    let mut es = negotiated(1);
    es.receiver.push(StreamEvent::UpdateObjID(5));
    let bytes = samples_as_bytes(&[-0.25]);
    let report = es.process(Some(&bytes));
    assert_eq!(report.rebind, Some(5));
    assert_eq!(report.status, ProcessStatus::Rendered);
    assert_eq!(f32::from_bits(report.peaks[0]), 0.25);
    assert_eq!(es.session.target, Some(5));
}

#[test]
fn unnegotiated_format_renders_no_channels() {
    let mut es = fresh_stream();
    es.create_stream(None);
    let bytes = samples_as_bytes(&[0.5, 0.5]);
    let report = es.process(Some(&bytes));
    assert_eq!(report.status, ProcessStatus::Rendered);
    assert!(report.peaks.is_empty());
}
