//! Stream session controller.
//!
//! Owns the one active capture session and the decisions of its two
//! callbacks. The parameter-changed callback filters format notifications
//! down to raw audio and records the negotiated format. The realtime process
//! callback first drains the inbound command queue completely and applies
//! only the last queued rebind command — earlier commands in the batch are
//! deliberately superseded — and then reads at most one buffer, computing
//! per-channel peaks when the buffer's data plane is non-empty. Every step
//! is a total function over plain values: the callback never blocks and does
//! no unbounded work beyond the samples handed to it.
//!
//! The transport calls themselves (stream creation, connection, the update-
//! parameters call, buffer dequeueing) are performed by the embedding, which
//! feeds their results in and carries the returned request records out.

use crate::peaks::chan_peak;
use crate::peaks::all_channel_peaks;
use crate::queue::Queue;
use vstd::prelude::*;

verus! {

/// A command travelling toward the realtime process callback.
pub enum StreamEvent {
    /// Rebind the capture stream to the node with the given identifier.
    UpdateObjID(u32),
}

/// What the management side hands over when a capture session is set up:
/// the command queue endpoint the session will drain, and the embedding's
/// own payload.
pub struct StreamCoreData<T> {
    /// Inbound rebind commands, drained at the top of each process callback.
    pub receiver: Queue<StreamEvent>,
    /// Embedding-defined payload carried alongside the session.
    pub data: T,
}

/// The session's standing attachment to the server connection.
pub struct StreamCore<T> {
    /// Opaque token of the connection handle the stream was created on.
    pub core_slot: u64,
    /// Inbound rebind commands, drained at the top of each process callback.
    pub receiver: Queue<StreamEvent>,
    /// Embedding-defined payload carried alongside the session.
    pub data: T,
}

/// Lifecycle of the single capture session.
#[derive(Clone, Copy, Debug, PartialEq, Eq, Structural)]
pub enum SessionState {
    /// No stream is connected.
    Unconnected,
    /// The stream is connected and the format negotiation is pending.
    Connected,
    /// A raw-audio format was accepted; samples are flowing.
    Streaming,
}

/// The sample encoding this controller requests and accepts.
#[derive(Clone, Copy, Debug, PartialEq, Eq, Structural)]
pub enum SampleEncoding {
    /// 32-bit little-endian floating-point samples.
    F32Le,
}

/// Stream direction relative to this process.
#[derive(Clone, Copy, Debug, PartialEq, Eq, Structural)]
pub enum Direction {
    /// The stream consumes data from the graph (capture).
    Input,
    /// The stream produces data into the graph (playback).
    Output,
}

/// Negotiated raw-audio format: sample rate and channel count.
#[derive(Clone, Copy, Debug, PartialEq, Eq, Structural)]
pub struct AudioFormat {
    /// Samples per second and channel.
    pub rate: u32,
    /// Interleaved channel count.
    pub channels: u32,
}

/// Parameter-object identifier under which a format enumeration is
/// requested at connect time.
pub const ENUM_FORMAT_PARAM_ID: u32 = 3;

/// Parameter kind of a format notification; other kinds are ignored.
pub const PARAM_KIND_FORMAT: u32 = 4;

/// Media type tag for audio payloads.
pub const MEDIA_TYPE_AUDIO: u32 = 1;

/// Media subtype tag for raw (uncompressed) payloads.
pub const MEDIA_SUBTYPE_RAW: u32 = 1;

/// A freshly built format-enumeration parameter object, ready to be
/// serialized and handed to the transport.
#[derive(Clone, Copy, Debug, PartialEq, Eq, Structural)]
pub struct FormatParams {
    /// Id field of the parameter object: the format-enumeration parameter
    /// id at connect time, the rebind target node id when re-addressed by a
    /// rebind command.
    pub object_id: u32,
    /// The requested sample encoding.
    pub encoding: SampleEncoding,
}

/// Everything the embedding needs to connect the stream: direction, target,
/// connection flags and the initial format-enumeration parameter.
pub struct ConnectRequest {
    /// Capture streams connect as input.
    pub direction: Direction,
    /// Target node id; the default capture route is addressed as zero.
    pub target: u32,
    /// Let the server pick and connect the target automatically.
    pub autoconnect: bool,
    /// Map the data buffers into this process, avoiding copies.
    pub map_buffers: bool,
    /// Run the process callback on the server's realtime thread.
    pub rt_process: bool,
    /// The single format-enumeration parameter announced at connect time.
    pub params: FormatParams,
}

/// A format notification after the embedding's format utilities decoded it:
/// the parameter kind, the media classification, and the parsed rate and
/// channel count. A payload whose rate and channel count could not be
/// parsed carries `None` for `format`; one whose media classification could
/// not be decoded is reported with a media type other than audio.
pub struct ParamPayload {
    /// Which parameter the notification is about.
    pub param_kind: u32,
    /// Decoded media type tag.
    pub media_type: u32,
    /// Decoded media subtype tag.
    pub media_subtype: u32,
    /// Parsed rate and channel count, or `None` when malformed.
    pub format: Option<AudioFormat>,
}

/// How a parameter-changed notification was handled.
#[derive(Clone, Copy, Debug, PartialEq, Eq, Structural)]
pub enum ParamChangeOutcome {
    /// A null payload: the server cleared the parameter; nothing to do.
    Cleared,
    /// Not a format parameter, or not raw audio; not of interest.
    Ignored,
    /// A raw-audio format payload whose body could not be parsed. The
    /// update is skipped and the session stays as it was: a malformed
    /// payload is recoverable and must not tear the session down.
    Malformed,
    /// A raw-audio format was parsed and recorded; the session is live.
    Accepted,
}

/// What one process-callback invocation decided.
#[derive(Clone, Copy, Debug, PartialEq, Eq, Structural)]
pub enum ProcessStatus {
    /// No buffer was available this period. Expected under normal
    /// backpressure; the callback returns at once without escalating.
    NoBuffer,
    /// A buffer arrived with an empty data plane; rendering is skipped for
    /// this period without error.
    SkippedEmpty,
    /// Peaks were computed and are ready to render.
    Rendered,
}

/// The single live capture session.
pub struct CaptureSession {
    /// Lifecycle state.
    pub state: SessionState,
    /// The node the stream is currently addressed to.
    pub target: Option<u32>,
    /// The negotiated format, once a raw-audio format notification arrived.
    pub format: Option<AudioFormat>,
    /// Whether a peak display has been rendered before, so that the next
    /// rendering may move the console cursor back up first.
    pub cursor_move: bool,
}

impl CaptureSession {
    /// Channel count of the negotiated format; zero while none is known.
    pub open spec fn spec_channels(&self) -> int {
        match self.format {
            Some(f) => f.channels as int,
            None => 0,
        }
    }
}

/// How a parameter-changed notification is classified: null payloads are
/// cleared, parameters other than a raw-audio format are ignored, a raw-
/// audio format without a parseable body is malformed, and the rest is
/// accepted.
pub open spec fn param_outcome(param: Option<&ParamPayload>) -> ParamChangeOutcome {
    match param {
        None => ParamChangeOutcome::Cleared,
        Some(p) => if p.param_kind != PARAM_KIND_FORMAT {
            ParamChangeOutcome::Ignored
        } else if p.media_type != MEDIA_TYPE_AUDIO || p.media_subtype != MEDIA_SUBTYPE_RAW {
            ParamChangeOutcome::Ignored
        } else {
            match p.format {
                None => ParamChangeOutcome::Malformed,
                Some(_) => ParamChangeOutcome::Accepted,
            }
        },
    }
}

/// The parsed format of a notification, where there is one.
pub open spec fn payload_format(param: Option<&ParamPayload>) -> Option<AudioFormat> {
    match param {
        None => None,
        Some(p) => p.format,
    }
}

/// The bytes of an optional buffer; empty when there is none.
pub open spec fn buffer_view(buffer: Option<&Vec<u8>>) -> Seq<u8> {
    match buffer {
        None => Seq::empty(),
        Some(b) => b@,
    }
}

/// The target of the last command of a drained batch; earlier commands are
/// superseded. `None` for an empty batch.
pub open spec fn last_rebind(s: Seq<StreamEvent>) -> Option<u32> {
    if s.len() == 0 {
        None
    } else {
        match s.last() {
            StreamEvent::UpdateObjID(id) => Some(id),
        }
    }
}

/// Readdresses the live stream: builds a fresh format-enumeration object
/// addressed to the new target node, to be issued as an update-parameters
/// call, and records the new target as the session's binding.
pub fn change_stream_node(session: &mut CaptureSession, obj_id: u32) -> (p: FormatParams)
    ensures
        final(session).target == Some(obj_id),
        final(session).state == old(session).state,
        final(session).format == old(session).format,
        final(session).cursor_move == old(session).cursor_move,
        p.object_id == obj_id,
        p.encoding is F32Le,
{
    session.target = Some(obj_id);
    FormatParams { object_id: obj_id, encoding: SampleEncoding::F32Le }
}

/// Report of one process-callback invocation: the applied rebind (if any)
/// with the parameter object to issue for it, what happened to the buffer,
/// and the per-channel peak magnitude patterns.
pub struct ProcessReport {
    /// Node id of the applied rebind: the last command of the drained
    /// batch, or `None` when none was queued.
    pub rebind: Option<u32>,
    /// The update-parameters object to issue for the applied rebind.
    pub params: Option<FormatParams>,
    /// What happened to the buffer this period.
    pub status: ProcessStatus,
    /// Peak magnitude pattern per channel, in channel order; empty unless
    /// peaks were computed.
    pub peaks: Vec<u32>,
}

/// The capture session together with its command queue endpoint and the
/// embedding's payload.
pub struct EStream<T> {
    /// The single live capture session.
    pub session: CaptureSession,
    /// Inbound rebind commands, drained at the top of each process callback.
    pub receiver: Queue<StreamEvent>,
    /// Opaque token of the connection handle the stream was created on.
    pub core_slot: u64,
    /// Embedding-defined payload carried alongside the session.
    pub data: T,
}

impl<T> EStream<T> {
    /// Takes ownership of the command queue endpoint and the payload and
    /// starts with an unconnected session: no target, no format, nothing
    /// rendered yet.
    pub fn new(stream_core: StreamCore<T>) -> (s: EStream<T>)
        ensures
            s.session.state is Unconnected,
            s.session.target is None,
            s.session.format is None,
            !s.session.cursor_move,
            s.receiver@ == stream_core.receiver@,
            s.core_slot == stream_core.core_slot,
            s.data == stream_core.data,
    {
        EStream {
            session: CaptureSession {
                state: SessionState::Unconnected,
                target: None,
                format: None,
                cursor_move: false,
            },
            receiver: stream_core.receiver,
            core_slot: stream_core.core_slot,
            data: stream_core.data,
        }
    }

    /// Connects the session to the given target node, or to the default
    /// capture route when none is given. The returned request asks for
    /// automatic connection, mapped buffers and a realtime process callback,
    /// and announces one format enumeration for 32-bit little-endian
    /// floating-point samples. The format itself stays pending until the
    /// server's parameter notification reports it.
    pub fn create_stream(&mut self, node_id: Option<u32>) -> (r: ConnectRequest)
        requires
            old(self).session.state is Unconnected,
        ensures
            final(self).session.state is Connected,
            final(self).session.target == Some(r.target),
            r.target == (match node_id {
                Some(id) => id,
                None => 0u32,
            }),
            final(self).session.format == old(self).session.format,
            final(self).session.cursor_move == old(self).session.cursor_move,
            final(self).receiver@ == old(self).receiver@,
            final(self).data == old(self).data,
            r.direction is Input,
            r.autoconnect && r.map_buffers && r.rt_process,
            r.params.object_id == ENUM_FORMAT_PARAM_ID,
            r.params.encoding is F32Le,
    {
        let target: u32 = match node_id {
            Some(id) => id,
            None => 0,
        };
        self.session.state = SessionState::Connected;
        self.session.target = Some(target);
        ConnectRequest {
            direction: Direction::Input,
            target,
            autoconnect: true,
            map_buffers: true,
            rt_process: true,
            params: FormatParams {
                object_id: ENUM_FORMAT_PARAM_ID,
                encoding: SampleEncoding::F32Le,
            },
        }
    }

    /// Handles one parameter-changed notification. A null payload clears
    /// nothing here and is ignored, as is any parameter other than a format
    /// or any media other than raw audio. A raw-audio format that fails to
    /// parse is skipped — the session stays untouched rather than being
    /// torn down. A parsed raw-audio format is recorded and the session
    /// counts as streaming from then on.
    pub fn on_param_changed(&mut self, param: Option<&ParamPayload>) -> (outcome:
        ParamChangeOutcome)
        ensures
            final(self).session.target == old(self).session.target,
            final(self).session.cursor_move == old(self).session.cursor_move,
            final(self).receiver@ == old(self).receiver@,
            final(self).data == old(self).data,
            outcome == param_outcome(param),
            outcome is Accepted ==> final(self).session.format == payload_format(param) && final(self).session.state is Streaming,
            !(outcome is Accepted) ==> final(self).session.format == old(self).session.format
                && final(self).session.state == old(self).session.state,
    {
        match param {
            None => ParamChangeOutcome::Cleared,
            Some(p) => {
                if p.param_kind != PARAM_KIND_FORMAT {
                    ParamChangeOutcome::Ignored
                } else if p.media_type != MEDIA_TYPE_AUDIO || p.media_subtype != MEDIA_SUBTYPE_RAW {
                    ParamChangeOutcome::Ignored
                } else {
                    match p.format {
                        None => ParamChangeOutcome::Malformed,
                        Some(f) => {
                            self.session.format = Some(f);
                            self.session.state = SessionState::Streaming;
                            ParamChangeOutcome::Accepted
                        },
                    }
                }
            },
        }
    }

    /// One process-callback invocation.
    ///
    /// First the inbound command queue is drained completely — never
    /// blocking; an empty queue costs one length check — and only the last
    /// rebind command of the batch is applied, by building an update-
    /// parameters object addressed to its target. Then at most one buffer
    /// is read: with none available the callback reports that and returns
    /// at once, with an empty data plane it skips rendering for the period,
    /// and otherwise it computes the peak magnitude pattern of every
    /// channel of the interleaved block. Work is bounded by the samples in
    /// the buffer times the channel count.
    pub fn process(&mut self, buffer: Option<&Vec<u8>>) -> (r: ProcessReport)
        ensures
            final(self).receiver@ == Seq::<StreamEvent>::empty(),
            r.rebind == last_rebind(old(self).receiver@),
            r.rebind matches Some(t) ==> final(self).session.target == Some(t) && r.params == Some(
                FormatParams { object_id: t, encoding: SampleEncoding::F32Le },
            ),
            r.rebind is None ==> final(self).session.target == old(self).session.target && r.params
                is None,
            final(self).session.state == old(self).session.state,
            final(self).session.format == old(self).session.format,
            final(self).data == old(self).data,
            buffer is None ==> r.status is NoBuffer && r.peaks@ == Seq::<u32>::empty() && final(self).session.cursor_move == old(self).session.cursor_move,
            buffer is Some && buffer_view(buffer).len() == 0 ==> r.status is SkippedEmpty
                && r.peaks@ == Seq::<u32>::empty() && final(self).session.cursor_move == old(self).session.cursor_move,
            buffer is Some && buffer_view(buffer).len() > 0 ==> r.status is Rendered
                && r.peaks@.len() == old(self).session.spec_channels() && (forall|c: int|
                0 <= c < r.peaks@.len() ==> r.peaks@[c] == chan_peak(
                    buffer_view(buffer),
                    c,
                    old(self).session.spec_channels(),
                    buffer_view(buffer).len() as int / 4,
                )) && final(self).session.cursor_move,
    {
        let cmds = self.receiver.drain_all();
        let mut rebind: Option<u32> = None;
        let mut params: Option<FormatParams> = None;
        if cmds.len() > 0 {
            match cmds[cmds.len() - 1] {
                StreamEvent::UpdateObjID(id) => {
                    let p = change_stream_node(&mut self.session, id);
                    rebind = Some(id);
                    params = Some(p);
                },
            }
        }
        match buffer {
            None => ProcessReport { rebind, params, status: ProcessStatus::NoBuffer, peaks: Vec::new() },
            Some(b) => {
                let blen = b.len();
                if blen == 0 {
                    ProcessReport {
                        rebind,
                        params,
                        status: ProcessStatus::SkippedEmpty,
                        peaks: Vec::new(),
                    }
                } else {
                    let n_channels_wide = match &self.session.format {
                        Some(f) => f.channels,
                        None => 0,
                    };
                    let n_channels = n_channels_wide as usize;
                    let n_samples = blen / 4;
                    let peaks = all_channel_peaks(b, n_channels, n_samples);
                    self.session.cursor_move = true;
                    ProcessReport { rebind, params, status: ProcessStatus::Rendered, peaks }
                }
            },
        }
    }
}

} // verus!
