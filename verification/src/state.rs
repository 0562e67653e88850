//! The decoder element's state and its decisions.
//!
//! The element receives events and buffers on its sink pad. Serialized
//! events that come after the caps event wait in a queue until the element
//! has announced its own (source) caps; the queue is pushed downstream,
//! in arrival order, before the first decoded buffer, or at end of stream.
//! The caps event itself configures the decoder and goes no further.
//!
//! Each operation hands back what the element must do outside (push events
//! and buffers, fail); the pads, the locking and the pushing are left to
//! the caller.

use vstd::prelude::*;

use crate::codec::{
    answer, codec_by_name, codec_configure, codec_names, codec_receive_frame, codec_send_packet,
    codec_set_extradata, is_s16, sample_format_is_s16, send_packet_call, CodecError, DecodedFrame,
    Decoder, DecoderCall, MediaInfo, PacketFields,
};
use crate::event_types::{
    event_kind, event_order, follows_caps, kind_of, lemma_follows_caps, EventKind, EventOrder, CAPS,
    EOS, SEGMENT,
};
use crate::lacing::{build_extradata, extradata, header_views};
use crate::timing::{buffer_pts, buffer_pts_of, packet_pts, packet_pts_of, SECOND};
use av_codec::decoder::Codecs;

verus! {

/// The caps the element announces downstream: interleaved signed 16-bit
/// audio in native byte order, at this rate and channel count.
#[derive(Debug, Clone, Copy, PartialEq, Eq)]
pub struct AudioCaps {
    pub rate: u32,
    pub channels: u32,
}

/// What the element reads of an event beyond its type.
#[derive(Debug, PartialEq, Eq)]
pub enum EventData {
    /// Nothing more is read.
    Plain,
    /// A segment event, and whether its segment is in time format.
    Segment { time_format: bool },
    /// A caps event, and the stream headers (`streamheader`) of its caps.
    Caps { stream_headers: Vec<Vec<u8>> },
}

/// What the element does with an event on its sink pad.
#[derive(Debug, PartialEq, Eq)]
pub enum SinkEventOutcome<E> {
    /// A segment that is not in time format: an error is posted and the
    /// event is refused (`false`).
    Rejected,
    /// The decoder refused its configuration from the caps.
    ConfigureFailed(CodecError),
    /// The event waits in the queue; it is accepted (`true`).
    Queued,
    /// Push `flush` downstream in order, then push `forward` and answer with
    /// its result, or answer `true` where nothing is forwarded.
    Handled { flush: Vec<E>, forward: Option<E> },
}

/// A buffer that arrives on the sink pad.
#[derive(Debug, PartialEq, Eq)]
pub struct InputBuffer {
    /// The buffer carries the header flag.
    pub header: bool,
    pub data: Vec<u8>,
    pub pts: Option<u64>,
    pub duration: Option<u64>,
}

/// A decoded buffer to push downstream.
#[derive(Debug, PartialEq, Eq)]
pub struct OutputBuffer {
    pub data: Vec<u8>,
    pub pts: Option<u64>,
    pub duration: Option<u64>,
}

/// What the element does with a buffer on its sink pad.
#[derive(Debug, PartialEq, Eq)]
pub enum ChainOutcome<E> {
    /// A header buffer: dropped, flow is ok.
    Skipped,
    /// The decoder needs more data: nothing is pushed, flow is ok.
    NeedMoreData,
    /// Push a caps event for `caps` where there is one, then `events` in
    /// order, then `buffer`, and answer with the buffer's flow result.
    Output { caps: Option<AudioCaps>, events: Vec<E>, buffer: OutputBuffer },
    /// The decoder refused the packet.
    SendFailed(CodecError),
    /// The decoder failed with an error other than needing more data.
    DecodeFailed(CodecError),
    /// The first audio frame is not in signed 16-bit samples.
    UnsupportedFormat,
    /// The decoder gave a video frame.
    UnsupportedMedia,
    /// The frame has no first plane to copy out.
    NoPlane,
}

/// The decoder call that hands over the packet for a buffer, answered so:
/// the same bytes, the timestamp read as signed, the same duration, and a
/// time base of one nanosecond.
pub open spec fn packet_of(buffer: InputBuffer, answer: Result<(), CodecError>) -> DecoderCall {
    DecoderCall::SendPacket {
        data: buffer.data@,
        pts: packet_pts_of(buffer.pts),
        duration: buffer.duration,
        timebase_num: 1,
        timebase_den: SECOND,
        answer,
    }
}

/// What a buffer hands the decoder, given the decoder's answers: nothing
/// for a header buffer; otherwise the packet, and where the decoder takes
/// it, a request for a frame read with its first plane.
pub open spec fn buffer_calls(
    buffer: InputBuffer,
    sent: Result<(), CodecError>,
    received: Result<DecodedFrame, CodecError>,
) -> Seq<DecoderCall> {
    if buffer.header {
        Seq::empty()
    } else if sent is Err {
        seq![packet_of(buffer, sent)]
    } else {
        seq![packet_of(buffer, sent), DecoderCall::ReceiveFrame { plane: 0, frame: received }]
    }
}

/// The packet for a buffer.
pub fn packet_for(buffer: InputBuffer) -> (p: PacketFields)
    ensures
        p.data@ == buffer.data@,
        p.pts == packet_pts_of(buffer.pts),
        p.duration == buffer.duration,
        p.timebase_num == 1,
        p.timebase_den == SECOND,
        forall|a: Result<(), CodecError>| #[trigger] send_packet_call(p, a) == packet_of(buffer, a),
{
    PacketFields {
        data: buffer.data,
        pts: packet_pts(buffer.pts),
        duration: buffer.duration,
        timebase_num: 1,
        timebase_den: SECOND,
    }
}

/// The element's state changes.
#[derive(Debug, Clone, Copy, PartialEq, Eq)]
pub enum StateChange {
    NullToReady,
    ReadyToPaused,
    PausedToPlaying,
    PlayingToPaused,
    PausedToReady,
    ReadyToNull,
    /// A change from a state to itself.
    Same,
}

/// The result of a state change.
#[derive(Debug, Clone, Copy, PartialEq, Eq)]
pub enum StateChangeReturn {
    Failure,
    Success,
    Async,
    NoPreroll,
}

/// The element's state.
pub struct DecoderState<E> {
    pending_events: Vec<E>,
    sink_headers: Option<Vec<Vec<u8>>>,
    src_caps: Option<AudioCaps>,
    codec: Option<Decoder>,
}

/// The element's state as values: the queued events, the stream headers
/// that configured the decoder, the announced caps, and whether a decoder
/// is there.
pub struct DecoderView<E> {
    pub pending: Seq<E>,
    pub sink_headers: Option<Seq<Seq<u8>>>,
    pub src_caps: Option<AudioCaps>,
    pub has_codec: bool,
}

impl<E> DecoderView<E> {
    /// The state of a new element, and of one that went back to ready.
    pub open spec fn initial() -> DecoderView<E> {
        DecoderView { pending: Seq::empty(), sink_headers: None, src_caps: None, has_codec: false }
    }

    /// Events wait only while no caps have been announced.
    pub open spec fn wf(self) -> bool {
        self.src_caps is Some ==> self.pending.len() == 0
    }

    pub open spec fn with_pending(self, pending: Seq<E>) -> DecoderView<E> {
        DecoderView {
            pending,
            sink_headers: self.sink_headers,
            src_caps: self.src_caps,
            has_codec: self.has_codec,
        }
    }

    pub open spec fn with_sink_headers(self, headers: Seq<Seq<u8>>) -> DecoderView<E> {
        DecoderView {
            pending: self.pending,
            sink_headers: Some(headers),
            src_caps: self.src_caps,
            has_codec: self.has_codec,
        }
    }

    pub open spec fn with_codec(self, has_codec: bool) -> DecoderView<E> {
        DecoderView {
            pending: self.pending,
            sink_headers: self.sink_headers,
            src_caps: self.src_caps,
            has_codec,
        }
    }

    /// The state after a decoded buffer went out: the queue is empty and
    /// the caps are those announced now or before.
    pub open spec fn after_output(self, caps: Option<AudioCaps>) -> DecoderView<E> {
        DecoderView {
            pending: Seq::empty(),
            sink_headers: self.sink_headers,
            src_caps: if self.src_caps is None {
                caps
            } else {
                self.src_caps
            },
            has_codec: self.has_codec,
        }
    }
}

impl<E> View for DecoderState<E> {
    type V = DecoderView<E>;

    closed spec fn view(&self) -> DecoderView<E> {
        DecoderView {
            pending: self.pending_events@,
            sink_headers: match self.sink_headers {
                Some(h) => Some(header_views(h@)),
                None => None,
            },
            src_caps: self.src_caps,
            has_codec: self.codec is Some,
        }
    }
}

/// Whether an event of this type waits for the caps: it is serialized,
/// comes after the caps event, and is not end-of-stream.
pub open spec fn waits_for_caps(event_type: u32) -> bool {
    event_type != EOS && follows_caps(event_type)
}

/// Whether a segment event's data says its segment is in time format.
pub open spec fn segment_in_time(data: EventData) -> bool {
    match data {
        EventData::Segment { time_format } => time_format,
        _ => true,
    }
}

/// The stream headers of a caps event's data.
pub open spec fn caps_headers(data: EventData) -> Seq<Seq<u8>> {
    match data {
        EventData::Caps { stream_headers } => header_views(stream_headers@),
        _ => Seq::empty(),
    }
}

/// The data fits the event type: a segment event carries its format, a
/// caps event between three and 255 stream headers, and a decoder is there
/// to configure.
pub open spec fn event_fits(event_type: u32, data: EventData, has_codec: bool) -> bool {
    &&& kind_of(event_type) == EventKind::Segment ==> data is Segment
    &&& kind_of(event_type) == EventKind::Caps ==> {
        &&& data is Caps
        &&& 3 <= caps_headers(data).len() < 256
        &&& has_codec
    }
}

/// One event on the sink pad, where `configured` is what the decoder made
/// of its configuration (read only for caps events).
pub open spec fn event_step<E>(
    pre: DecoderView<E>,
    event: E,
    event_type: u32,
    data: EventData,
    configured: Result<(), CodecError>,
    post: DecoderView<E>,
    out: SinkEventOutcome<E>,
) -> bool {
    if kind_of(event_type) == EventKind::Segment && !segment_in_time(data) {
        out is Rejected && post == pre
    } else if kind_of(event_type) == EventKind::Caps {
        match configured {
            Err(e) => out == SinkEventOutcome::<E>::ConfigureFailed(e) && post == pre,
            Ok(_) => {
                &&& out matches SinkEventOutcome::Handled { flush, forward } && flush@.len() == 0
                    && forward is None
                &&& post == pre.with_sink_headers(caps_headers(data))
            },
        }
    } else if waits_for_caps(event_type) && pre.src_caps is None {
        out is Queued && post == pre.with_pending(pre.pending.push(event))
    } else if kind_of(event_type) == EventKind::Eos {
        &&& out matches SinkEventOutcome::Handled { flush, forward } && flush@ == pre.pending
            && forward == Some(event)
        &&& post == pre.with_pending(Seq::empty())
    } else {
        &&& out matches SinkEventOutcome::Handled { flush, forward } && flush@.len() == 0
            && forward == Some(event)
        &&& post == pre
    }
}

/// What the element does with what the decoder gave back for a buffer.
pub open spec fn decode_step<E>(
    pre: DecoderView<E>,
    received: Result<DecodedFrame, CodecError>,
    post: DecoderView<E>,
    out: ChainOutcome<E>,
) -> bool {
    match received {
        Err(e) => if e == CodecError::MoreDataNeeded {
            out is NeedMoreData && post == pre
        } else {
            out == ChainOutcome::<E>::DecodeFailed(e) && post == pre
        },
        Ok(frame) => match frame.info.media {
            MediaInfo::Video => out is UnsupportedMedia && post == pre,
            MediaInfo::Audio { rate, channels, format } => if pre.src_caps is None && !is_s16(
                format,
            ) {
                out is UnsupportedFormat && post == pre
            } else if frame.data is None {
                out is NoPlane && post == pre
            } else {
                let caps = if pre.src_caps is None {
                    Some(AudioCaps { rate: rate as u32, channels: channels as u32 })
                } else {
                    None
                };
                &&& out matches ChainOutcome::Output { caps: c, events, buffer } && c == caps
                    && events@ == pre.pending && buffer.data@ == frame.data.unwrap()@
                    && buffer.pts == buffer_pts_of(frame.info.pts) && buffer.duration
                    == frame.info.duration
                &&& post == pre.after_output(caps)
            },
        },
    }
}

/// One buffer on the sink pad, where `sent` is what the decoder made of the
/// packet and `received` what it gave back then.
pub open spec fn buffer_step<E>(
    pre: DecoderView<E>,
    header: bool,
    sent: Result<(), CodecError>,
    received: Result<DecodedFrame, CodecError>,
    post: DecoderView<E>,
    out: ChainOutcome<E>,
) -> bool {
    if header {
        out is Skipped && post == pre
    } else {
        match sent {
            Err(e) => out == ChainOutcome::<E>::SendFailed(e) && post == pre,
            Ok(_) => decode_step(pre, received, post, out),
        }
    }
}

impl<E> DecoderState<E> {
    /// What the current decoder has been handed since it was made; nothing
    /// where there is no decoder.
    pub closed spec fn decoder_calls(&self) -> Seq<DecoderCall> {
        match self.codec {
            Some(d) => d.calls(),
            None => Seq::empty(),
        }
    }

    /// A new element's state: nothing queued, no caps, no decoder.
    pub fn new() -> (s: Self)
        ensures
            s@ == DecoderView::<E>::initial(),
            s@.wf(),
    {
        DecoderState { pending_events: Vec::new(), sink_headers: None, src_caps: None, codec: None }
    }

    /// Whether a decoder is there.
    pub fn has_codec(&self) -> (r: bool)
        ensures
            r == self@.has_codec,
    {
        self.codec.is_some()
    }

    /// The caps announced downstream, if any.
    pub fn src_caps(&self) -> (r: Option<AudioCaps>)
        ensures
            r == self@.src_caps,
    {
        self.src_caps
    }

    /// The number of events that wait for the caps.
    pub fn pending_len(&self) -> (r: usize)
        ensures
            r == self@.pending.len(),
    {
        self.pending_events.len()
    }

    /// Events wait only while no caps have been announced.
    #[verifier::type_invariant]
    spec fn inv(self) -> bool {
        self.src_caps is Some ==> self.pending_events@.len() == 0
    }

    /// Takes the decoder out of the state.
    fn take_codec(&mut self) -> (d: Option<Decoder>)
        ensures
            d == old(self).codec,
            final(self).codec is None,
            final(self).pending_events == old(self).pending_events,
            final(self).sink_headers == old(self).sink_headers,
            final(self).src_caps == old(self).src_caps,
    {
        proof {
            use_type_invariant(&*self);
        }
        let mut d: Option<Decoder> = None;
        std::mem::swap(&mut d, &mut self.codec);
        d
    }

    /// Takes the queued events out of the state.
    fn take_pending(&mut self) -> (q: Vec<E>)
        ensures
            q@ == old(self)@.pending,
            final(self)@ == old(self)@.with_pending(Seq::empty()),
            final(self).decoder_calls() == old(self).decoder_calls(),
    {
        let mut q: Vec<E> = Vec::new();
        std::mem::swap(&mut q, &mut self.pending_events);
        q
    }

    /// Records the outcome of configuring the decoder from caps with these
    /// stream headers: on success the headers are kept and the caps event
    /// goes no further; on failure nothing changes.
    pub fn finish_caps(
        &mut self,
        stream_headers: Vec<Vec<u8>>,
        configured: Result<(), CodecError>,
    ) -> (out: SinkEventOutcome<E>)
        ensures
            final(self)@.wf(),
            final(self).decoder_calls() == old(self).decoder_calls(),
            match configured {
                Err(e) => {
                    &&& out == SinkEventOutcome::<E>::ConfigureFailed(e)
                    &&& final(self)@ == old(self)@
                },
                Ok(_) => {
                    &&& out matches SinkEventOutcome::Handled { flush, forward } && flush@.len() == 0
                        && forward is None
                    &&& final(self)@ == old(self)@.with_sink_headers(header_views(stream_headers@))
                },
            },
    {
        proof {
            use_type_invariant(&*self);
        }
        let out = match configured {
            Err(e) => SinkEventOutcome::ConfigureFailed(e),
            Ok(()) => {
                self.sink_headers = Some(stream_headers);
                SinkEventOutcome::Handled { flush: Vec::new(), forward: None }
            },
        };
        proof {
            use_type_invariant(&*self);
        }
        out
    }

    /// Handles an event on the sink pad. A caps event hands the decoder the
    /// extradata of its stream headers, then has it configure itself; the
    /// outcome is then that of `finish_caps`. Other events leave the
    /// decoder alone.
    pub fn sink_event(&mut self, event: E, event_type: u32, data: EventData) -> (out:
        SinkEventOutcome<E>)
        requires
            event_fits(event_type, data, old(self)@.has_codec),
        ensures
            final(self)@.wf(),
            exists|configured: Result<(), CodecError>|
                {
                    &&& event_step(old(self)@, event, event_type, data, configured, final(self)@, out)
                    &&& kind_of(event_type) == EventKind::Caps ==> final(self).decoder_calls()
                        == old(self).decoder_calls() + seq![
                        DecoderCall::SetExtradata(extradata(caps_headers(data))),
                        DecoderCall::Configure(configured),
                    ]
                },
            kind_of(event_type) != EventKind::Caps ==> event_step(
                old(self)@,
                event,
                event_type,
                data,
                Ok(()),
                final(self)@,
                out,
            ),
            kind_of(event_type) != EventKind::Caps ==> final(self).decoder_calls() == old(
                self,
            ).decoder_calls(),
    {
        proof {
            use_type_invariant(&*self);
        }
        let ghost ev = event;
        let ghost fits = data;
        let kind = event_kind(event_type);
        match kind {
            EventKind::Segment => {
                if let EventData::Segment { time_format } = &data {
                    if !*time_format {
                        let out = SinkEventOutcome::Rejected;
                        assert(event_step(old(self)@, ev, event_type, fits, Ok(()), self@, out));
                        return out;
                    }
                }
            },
            EventKind::Caps => {
                let stream_headers = match data {
                    EventData::Caps { stream_headers } => stream_headers,
                    _ => {
                        assert(false);
                        Vec::new()
                    },
                };
                let extra = build_extradata(&stream_headers);
                let mut dec = self.take_codec().unwrap();
                let ghost before = dec.calls();
                codec_set_extradata(&mut dec, extra.as_slice());
                let configured = answer(codec_configure(&mut dec));
                assert(dec.calls() == before + seq![
                    DecoderCall::SetExtradata(extradata(caps_headers(fits))),
                    DecoderCall::Configure(configured),
                ]);
                self.codec = Some(dec);
                let out = self.finish_caps(stream_headers, configured);
                assert(event_step(old(self)@, ev, event_type, fits, configured, self@, out));
                return out;
            },
            _ => {},
        }
        let waits = event_type != EOS && match event_order(event_type, CAPS) {
            Some(EventOrder::After) => true,
            _ => false,
        };
        let out = if waits && self.src_caps.is_none() {
            let mut q = self.take_pending();
            q.push(event);
            self.pending_events = q;
            SinkEventOutcome::Queued
        } else {
            match kind {
                EventKind::Eos => {
                    let flush = self.take_pending();
                    SinkEventOutcome::Handled { flush, forward: Some(event) }
                },
                _ => SinkEventOutcome::Handled { flush: Vec::new(), forward: Some(event) },
            }
        };
        assert(event_step(old(self)@, ev, event_type, fits, Ok(()), self@, out));
        proof {
            use_type_invariant(&*self);
        }
        out
    }

    /// Handles what the decoder gave back for a buffer: the first audio
    /// frame fixes the caps (it must hold signed 16-bit samples), and each
    /// audio frame goes out as a buffer after the queued events.
    pub fn handle_decoded(&mut self, received: Result<DecodedFrame, CodecError>) -> (out:
        ChainOutcome<E>)
        ensures
            final(self)@.wf(),
            decode_step(old(self)@, received, final(self)@, out),
            final(self).decoder_calls() == old(self).decoder_calls(),
    {
        proof {
            use_type_invariant(&*self);
        }
        let out = match received {
            Err(CodecError::MoreDataNeeded) => ChainOutcome::NeedMoreData,
            Err(e) => ChainOutcome::DecodeFailed(e),
            Ok(frame) => match frame.info.media {
                MediaInfo::Video => ChainOutcome::UnsupportedMedia,
                MediaInfo::Audio { rate, channels, format } => {
                    let caps = if self.src_caps.is_none() {
                        if !sample_format_is_s16(&format) {
                            return ChainOutcome::UnsupportedFormat;
                        }
                        Some(AudioCaps { rate: rate as u32, channels: channels as u32 })
                    } else {
                        None
                    };
                    match frame.data {
                        None => ChainOutcome::NoPlane,
                        Some(bytes) => {
                            let events = self.take_pending();
                            if caps.is_some() {
                                self.src_caps = caps;
                            }
                            let buffer = OutputBuffer {
                                data: bytes,
                                pts: buffer_pts(frame.info.pts),
                                duration: frame.info.duration,
                            };
                            ChainOutcome::Output { caps, events, buffer }
                        },
                    }
                },
            },
        };
        proof {
            use_type_invariant(&*self);
        }
        out
    }

    /// Handles a buffer on the sink pad: a header buffer is dropped; any
    /// other goes to the decoder as the packet `packet_for` makes of it;
    /// where the decoder takes it, a frame is asked for and read with its
    /// first plane, and the answer is handled as in `handle_decoded`.
    pub fn sink_chain(&mut self, buffer: InputBuffer) -> (out: ChainOutcome<E>)
        requires
            buffer.header || old(self)@.has_codec,
        ensures
            final(self)@.wf(),
            exists|sent: Result<(), CodecError>, received: Result<DecodedFrame, CodecError>|
                {
                    &&& buffer_step(old(self)@, buffer.header, sent, received, final(self)@, out)
                    &&& final(self).decoder_calls() == old(self).decoder_calls() + buffer_calls(
                        buffer,
                        sent,
                        received,
                    )
                },
    {
        proof {
            use_type_invariant(&*self);
        }
        let ghost input = buffer;
        let ghost before = self.decoder_calls();
        if buffer.header {
            let out = ChainOutcome::Skipped;
            assert(buffer_step(old(self)@, true, Ok(()), Err(CodecError::InvalidData), self@, out));
            assert(self.decoder_calls() =~= before + buffer_calls(
                input,
                Ok(()),
                Err(CodecError::InvalidData),
            ));
            return out;
        }
        let packet = packet_for(buffer);
        let mut dec = self.take_codec().unwrap();
        let sent = answer(codec_send_packet(&mut dec, &packet));
        assert(send_packet_call(packet, sent) == packet_of(input, sent));
        if let Err(e) = sent {
            self.codec = Some(dec);
            let ghost failed = sent;
            let out = ChainOutcome::SendFailed(e);
            assert(buffer_step(old(self)@, false, failed, Err(CodecError::InvalidData), self@, out));
            assert(self.decoder_calls() =~= before + buffer_calls(
                input,
                failed,
                Err(CodecError::InvalidData),
            ));
            return out;
        }
        let received = answer(codec_receive_frame(&mut dec, 0));
        self.codec = Some(dec);
        let ghost got = received;
        let out = self.handle_decoded(received);
        assert(buffer_step(old(self)@, false, sent, got, self@, out));
        assert(self.decoder_calls() =~= before + buffer_calls(input, sent, got));
        out
    }

    /// Before the parent element changes state: going from ready to paused
    /// takes a fresh Vorbis decoder from the codec list.
    pub fn prepare_transition(&mut self, transition: StateChange, codecs: &Codecs)
        ensures
            final(self)@.wf(),
            transition == StateChange::ReadyToPaused ==> {
                &&& final(self)@ == old(self)@.with_codec(codec_names(*codecs).contains("vorbis"@))
                &&& final(self).decoder_calls() == Seq::<DecoderCall>::empty()
            },
            transition != StateChange::ReadyToPaused ==> {
                &&& final(self)@ == old(self)@
                &&& final(self).decoder_calls() == old(self).decoder_calls()
            },
    {
        proof {
            use_type_invariant(&*self);
        }
        if let StateChange::ReadyToPaused = transition {
            self.codec = codec_by_name(codecs, "vorbis");
        }
        proof {
            use_type_invariant(&*self);
        }
    }

    /// After the parent element changed state: its result is passed on; on
    /// success, going from paused to ready drops everything.
    pub fn finish_transition(&mut self, transition: StateChange, parent: StateChangeReturn) -> (r:
        StateChangeReturn)
        ensures
            r == parent,
            final(self)@.wf(),
            parent == StateChangeReturn::Failure ==> final(self)@ == old(self)@,
            parent != StateChangeReturn::Failure && transition == StateChange::PausedToReady
                ==> final(self)@ == DecoderView::<E>::initial(),
            parent != StateChangeReturn::Failure && transition != StateChange::PausedToReady
                ==> final(self)@ == old(self)@,
            final(self)@.has_codec ==> final(self).decoder_calls() == old(self).decoder_calls(),
    {
        proof {
            use_type_invariant(&*self);
        }
        if let StateChangeReturn::Failure = parent {
            return parent;
        }
        if let StateChange::PausedToReady = transition {
            *self = Self::new();
        }
        proof {
            use_type_invariant(&*self);
        }
        parent
    }
}

/// Events that wait for the caps come out, in the order they arrived,
/// ahead of the first decoded buffer: an event queued on a state whose
/// queue is `pre.pending` is the last of the events pushed with the next
/// output buffer, after those that waited before it.
pub proof fn lemma_queued_events_come_out_in_order<E>(
    pre: DecoderView<E>,
    event: E,
    event_type: u32,
    data: EventData,
    configured: Result<(), CodecError>,
    mid: DecoderView<E>,
    received: Result<DecodedFrame, CodecError>,
    post: DecoderView<E>,
    out: ChainOutcome<E>,
)
    requires
        event_step(pre, event, event_type, data, configured, mid, SinkEventOutcome::Queued),
        decode_step(mid, received, post, out),
        out is Output,
    ensures
        out matches ChainOutcome::Output { events, .. } && events@ == pre.pending.push(event),
        post.pending.len() == 0,
        post.src_caps is Some,
{
}

/// One step of the element on its sink pad, with what the decoder made of
/// it and what the element did.
pub enum Step<E> {
    Event {
        event: E,
        event_type: u32,
        data: EventData,
        configured: Result<(), CodecError>,
        out: SinkEventOutcome<E>,
    },
    Buffer {
        header: bool,
        sent: Result<(), CodecError>,
        received: Result<DecodedFrame, CodecError>,
        result: ChainOutcome<E>,
    },
}

/// The step leads from `pre` to `post`.
pub open spec fn step_holds<E>(pre: DecoderView<E>, step: Step<E>, post: DecoderView<E>) -> bool {
    match step {
        Step::Event { event, event_type, data, configured, out } => event_step(
            pre,
            event,
            event_type,
            data,
            configured,
            post,
            out,
        ),
        Step::Buffer { header, sent, received, result } => buffer_step(
            pre,
            header,
            sent,
            received,
            post,
            result,
        ),
    }
}

/// A run of steps through the states `states`, one more than the steps.
pub open spec fn is_run<E>(states: Seq<DecoderView<E>>, steps: Seq<Step<E>>) -> bool {
    &&& states.len() == steps.len() + 1
    &&& forall|i: int| 0 <= i < steps.len() ==> step_holds(states[i], #[trigger] steps[i], states[i + 1])
}

/// The event that a step puts in the queue, if any.
pub open spec fn queued_by<E>(step: Step<E>) -> Seq<E> {
    match step {
        Step::Event { event, out, .. } => if out is Queued {
            seq![event]
        } else {
            Seq::empty()
        },
        Step::Buffer { .. } => Seq::empty(),
    }
}

/// The type of the event that a step puts in the queue, if any.
pub open spec fn queued_type_by<E>(step: Step<E>) -> Seq<u32> {
    match step {
        Step::Event { event_type, out, .. } => if out is Queued {
            seq![event_type]
        } else {
            Seq::empty()
        },
        Step::Buffer { .. } => Seq::empty(),
    }
}

/// The queued events that a step lets go downstream.
pub open spec fn released_by<E>(step: Step<E>) -> Seq<E> {
    match step {
        Step::Event { out, .. } => match out {
            SinkEventOutcome::Handled { flush, .. } => flush@,
            _ => Seq::empty(),
        },
        Step::Buffer { result, .. } => match result {
            ChainOutcome::Output { events, .. } => events@,
            _ => Seq::empty(),
        },
    }
}

/// Whether a step announces caps downstream.
pub open spec fn announces<E>(step: Step<E>) -> bool {
    step matches Step::Buffer { result: ChainOutcome::Output { caps: Some(_), .. }, .. }
}

/// Whether a step pushes a decoded buffer downstream.
pub open spec fn pushes_buffer<E>(step: Step<E>) -> bool {
    step matches Step::Buffer { result: ChainOutcome::Output { .. }, .. }
}

/// The events queued by the first `n` steps, in order.
pub open spec fn queued_upto<E>(steps: Seq<Step<E>>, n: int) -> Seq<E>
    decreases n,
{
    if n <= 0 {
        Seq::empty()
    } else {
        queued_upto(steps, n - 1) + queued_by(steps[n - 1])
    }
}

/// The types of the events queued by the first `n` steps, in order.
pub open spec fn queued_types_upto<E>(steps: Seq<Step<E>>, n: int) -> Seq<u32>
    decreases n,
{
    if n <= 0 {
        Seq::empty()
    } else {
        queued_types_upto(steps, n - 1) + queued_type_by(steps[n - 1])
    }
}

/// The queued events let go by the first `n` steps, in order.
pub open spec fn released_upto<E>(steps: Seq<Step<E>>, n: int) -> Seq<E>
    decreases n,
{
    if n <= 0 {
        Seq::empty()
    } else {
        released_upto(steps, n - 1) + released_by(steps[n - 1])
    }
}

/// How many of the first `n` steps announce caps.
pub open spec fn announced_upto<E>(steps: Seq<Step<E>>, n: int) -> nat
    decreases n,
{
    if n <= 0 {
        0
    } else {
        announced_upto(steps, n - 1) + if announces(steps[n - 1]) {
            1nat
        } else {
            0nat
        }
    }
}

/// Every step keeps the rule that events wait only while no caps have been
/// announced.
pub proof fn lemma_step_keeps_wf<E>(pre: DecoderView<E>, step: Step<E>, post: DecoderView<E>)
    requires
        pre.wf(),
        step_holds(pre, step, post),
    ensures
        post.wf(),
{
}

/// Caps, once announced, stay as they are through every event and buffer;
/// no event waits any more, and no step announces caps again.
pub proof fn lemma_announced_caps_stay<E>(pre: DecoderView<E>, step: Step<E>, post: DecoderView<E>)
    requires
        pre.src_caps is Some,
        step_holds(pre, step, post),
    ensures
        post.src_caps == pre.src_caps,
        queued_by(step).len() == 0,
        !announces(step),
{
}

/// Only an event of a type that waits for the caps is queued, and only
/// while no caps have been announced.
pub proof fn lemma_only_waiting_events_are_queued<E>(
    pre: DecoderView<E>,
    step: Step<E>,
    post: DecoderView<E>,
)
    requires
        step_holds(pre, step, post),
        step matches Step::Event { out: SinkEventOutcome::Queued, .. },
    ensures
        step matches Step::Event { event_type, .. } && waits_for_caps(event_type)
            && kind_of(event_type) != EventKind::Caps && kind_of(event_type) != EventKind::Eos,
        pre.src_caps is None,
{
    if let Step::Event { event_type, .. } = step {
        lemma_follows_caps(event_type);
    }
}

/// A step neither loses nor reorders queued events: what waited before,
/// followed by what the step queues, is what it lets go followed by what
/// waits after it. Caps are announced by a step exactly when they are
/// chosen there.
pub proof fn lemma_step_moves_queue<E>(pre: DecoderView<E>, step: Step<E>, post: DecoderView<E>)
    requires
        step_holds(pre, step, post),
    ensures
        pre.pending + queued_by(step) == released_by(step) + post.pending,
        announces(step) <==> (pre.src_caps is None && post.src_caps is Some),
        pre.src_caps is Some ==> post.src_caps is Some,
        pushes_buffer(step) ==> post.src_caps is Some,
{
    match step {
        Step::Event { event, out, .. } => {
            if out is Queued {
                assert(pre.pending + seq![event] =~= Seq::<E>::empty() + pre.pending.push(event));
            } else {
                assert(pre.pending + Seq::<E>::empty() =~= pre.pending);
                assert(Seq::<E>::empty() + pre.pending =~= pre.pending);
                assert(released_by(step) + Seq::<E>::empty() =~= released_by(step));
            }
        },
        Step::Buffer { .. } => {
            assert(pre.pending + Seq::<E>::empty() =~= pre.pending);
            assert(Seq::<E>::empty() + pre.pending =~= pre.pending);
            assert(released_by(step) + Seq::<E>::empty() =~= released_by(step));
        },
    }
}

/// Over a run, queued events are let go exactly once each and in the order
/// they arrived: the events waiting at the start, followed by all events
/// queued since, are the events let go since, followed by those still
/// waiting.
pub proof fn lemma_run_keeps_queue_order<E>(
    states: Seq<DecoderView<E>>,
    steps: Seq<Step<E>>,
    n: int,
)
    requires
        is_run(states, steps),
        0 <= n <= steps.len(),
    ensures
        states[0].pending + queued_upto(steps, n) == released_upto(steps, n) + states[n].pending,
    decreases n,
{
    if n == 0 {
        assert(states[0].pending + Seq::<E>::empty() =~= states[0].pending);
        assert(Seq::<E>::empty() + states[0].pending =~= states[0].pending);
    } else {
        lemma_run_keeps_queue_order(states, steps, n - 1);
        assert(step_holds(states[n - 1], steps[n - 1], states[n]));
        lemma_step_moves_queue(states[n - 1], steps[n - 1], states[n]);
        let q = queued_upto(steps, n - 1);
        let r = released_upto(steps, n - 1);
        let qs = queued_by(steps[n - 1]);
        let rs = released_by(steps[n - 1]);
        assert(states[0].pending + (q + qs) =~= (states[0].pending + q) + qs);
        assert((r + states[n - 1].pending) + qs =~= r + (states[n - 1].pending + qs));
        assert(r + (rs + states[n].pending) =~= (r + rs) + states[n].pending);
    }
}

/// Over a run from a state without caps, caps are announced at most once,
/// exactly when the state gets them, and every decoded buffer goes out
/// once they have been announced: the first such buffer announces them.
pub proof fn lemma_run_announces_caps_once<E>(
    states: Seq<DecoderView<E>>,
    steps: Seq<Step<E>>,
    n: int,
)
    requires
        is_run(states, steps),
        states[0].src_caps is None,
        0 <= n <= steps.len(),
    ensures
        announced_upto(steps, n) == if states[n].src_caps is Some {
            1nat
        } else {
            0nat
        },
        announced_upto(steps, n) <= 1,
        n < steps.len() && pushes_buffer(steps[n]) ==> announced_upto(steps, n + 1) == 1,
    decreases n,
{
    if n > 0 {
        lemma_run_announces_caps_once(states, steps, n - 1);
        assert(step_holds(states[n - 1], steps[n - 1], states[n]));
        lemma_step_moves_queue(states[n - 1], steps[n - 1], states[n]);
    }
    if n < steps.len() {
        assert(step_holds(states[n], steps[n], states[n + 1]));
        lemma_step_moves_queue(states[n], steps[n], states[n + 1]);
    }
}

/// Over a run, the state keeps its rule that events wait only while no
/// caps have been announced.
pub proof fn lemma_run_keeps_wf<E>(states: Seq<DecoderView<E>>, steps: Seq<Step<E>>, n: int)
    requires
        is_run(states, steps),
        states[0].wf(),
        0 <= n <= steps.len(),
    ensures
        states[n].wf(),
    decreases n,
{
    if n > 0 {
        lemma_run_keeps_wf(states, steps, n - 1);
        assert(step_holds(states[n - 1], steps[n - 1], states[n]));
        lemma_step_keeps_wf(states[n - 1], steps[n - 1], states[n]);
    }
}

/// Over a run, every event that is queued has a type that waits for the
/// caps.
pub proof fn lemma_run_queues_only_waiting_events<E>(
    states: Seq<DecoderView<E>>,
    steps: Seq<Step<E>>,
    n: int,
)
    requires
        is_run(states, steps),
        0 <= n <= steps.len(),
    ensures
        queued_types_upto(steps, n).len() == queued_upto(steps, n).len(),
        forall|k: int|
            0 <= k < queued_types_upto(steps, n).len() ==> waits_for_caps(
                #[trigger] queued_types_upto(steps, n)[k],
            ),
    decreases n,
{
    if n > 0 {
        lemma_run_queues_only_waiting_events(states, steps, n - 1);
        let step = steps[n - 1];
        assert(step_holds(states[n - 1], step, states[n]));
        if step matches Step::Event { out: SinkEventOutcome::Queued, .. } {
            lemma_only_waiting_events_are_queued(states[n - 1], step, states[n]);
        }
        let prev = queued_types_upto(steps, n - 1);
        assert forall|k: int|
            0 <= k < queued_types_upto(steps, n).len() implies waits_for_caps(
                #[trigger] queued_types_upto(steps, n)[k],
            ) by {
            if k < prev.len() {
                assert(queued_types_upto(steps, n)[k] == prev[k]);
            }
        }
    }
}

/// The caps event configures the decoder and is neither queued nor pushed
/// downstream.
pub proof fn lemma_caps_event_goes_no_further<E>(
    pre: DecoderView<E>,
    event: E,
    data: EventData,
    configured: Result<(), CodecError>,
    post: DecoderView<E>,
    out: SinkEventOutcome<E>,
)
    requires
        event_step(pre, event, CAPS, data, configured, post, out),
    ensures
        !(out is Queued),
        out matches SinkEventOutcome::Handled { forward, .. } ==> forward is None,
        post.pending == pre.pending,
        post.src_caps == pre.src_caps,
{
}

/// End of stream never waits: the queue goes downstream ahead of it, in
/// order, and is empty afterwards.
pub proof fn lemma_eos_flushes_queue<E>(
    pre: DecoderView<E>,
    event: E,
    data: EventData,
    configured: Result<(), CodecError>,
    post: DecoderView<E>,
    out: SinkEventOutcome<E>,
)
    requires
        event_step(pre, event, EOS, data, configured, post, out),
    ensures
        out matches SinkEventOutcome::Handled { flush, forward } && flush@ == pre.pending
            && forward == Some(event),
        post.pending.len() == 0,
{
}

/// Whether a frame's samples are signed 16-bit, little endian, neither
/// packed nor planar: the one format the element announces.
pub open spec fn signed_16(format: crate::codec::SampleFormat) -> bool {
    &&& format.bits == 16
    &&& !format.be
    &&& !format.packed
    &&& !format.planar
    &&& !format.float
    &&& format.signed
}

/// What the element does with each event on its sink pad.
///
/// - A segment in a format other than time is refused and changes nothing.
/// - A caps event is never queued or pushed on; it is answered `true` when
///   the decoder took its configuration, and changes nothing when it did
///   not.
/// - An event is queued exactly when no caps have been announced and its
///   type is serialized, comes after the caps event (its value is above
///   `CAPS`) and is not end-of-stream; it goes to the back of the queue.
/// - End of stream lets the whole queue go ahead of it and is pushed on.
/// - Every other event is pushed on unchanged, alone, and changes nothing;
///   in particular, once caps have been announced every event but a caps
///   event or a refused segment is pushed on at once.
pub proof fn lemma_event_outcomes<E>(
    pre: DecoderView<E>,
    event: E,
    event_type: u32,
    data: EventData,
    configured: Result<(), CodecError>,
    post: DecoderView<E>,
    out: SinkEventOutcome<E>,
)
    requires
        pre.wf(),
        event_step(pre, event, event_type, data, configured, post, out),
    ensures
        (event_type == SEGMENT && (data matches EventData::Segment { time_format } && !time_format))
            ==> out is Rejected && post == pre,
        event_type == CAPS ==> {
            &&& !(out is Queued)
            &&& (out is Handled <==> configured is Ok)
            &&& (out matches SinkEventOutcome::Handled { flush, forward } ==> flush@.len() == 0
                && forward is None)
            &&& configured is Ok ==> post.pending == pre.pending && post.src_caps == pre.src_caps
            &&& configured is Err ==> post == pre
        },
        event_type != CAPS && !(event_type == SEGMENT && (data matches EventData::Segment {
            time_format,
        } && !time_format)) ==> {
            &&& out is Queued <==> {
                &&& pre.src_caps is None
                &&& event_type & 4 != 0
                &&& event_type > CAPS
                &&& event_type != EOS
            }
            &&& out is Queued ==> post.pending == pre.pending.push(event) && post.src_caps
                == pre.src_caps && post.has_codec == pre.has_codec
            &&& !(out is Queued) && event_type == EOS ==> (out matches SinkEventOutcome::Handled {
                flush,
                forward,
            } && flush@ == pre.pending && forward == Some(event) && post.pending.len() == 0
                && post.src_caps == pre.src_caps)
            &&& !(out is Queued) && event_type != EOS ==> (out matches SinkEventOutcome::Handled {
                flush,
                forward,
            } && flush@.len() == 0 && forward == Some(event) && post == pre)
            &&& pre.src_caps is Some ==> (out matches SinkEventOutcome::Handled { flush, forward }
                && flush@.len() == 0 && forward == Some(event) && post.pending == pre.pending
                && post.src_caps == pre.src_caps)
        },
{
    lemma_follows_caps(event_type);
    assert(EOS & 4 != 0) by (bit_vector);
}

/// What the element does with what the decoder gave back for a buffer.
///
/// - A decoder that needs more data, or fails, changes nothing; its error
///   is handed on.
/// - A video frame, or a first frame not in signed 16-bit samples, changes
///   nothing.
/// - An audio frame with its bytes goes out: the buffer holds the frame's
///   bytes, its timestamp (read as unsigned) and its duration, whether or
///   not caps are announced with it; the queued events go out ahead of
///   it, in order, and the queue is empty afterwards. Caps are announced
///   exactly with the first such frame, and they are that frame's own rate
///   and channel count.
pub proof fn lemma_decode_outcomes<E>(
    pre: DecoderView<E>,
    received: Result<DecodedFrame, CodecError>,
    post: DecoderView<E>,
    out: ChainOutcome<E>,
)
    requires
        decode_step(pre, received, post, out),
    ensures
        received == Err::<DecodedFrame, CodecError>(CodecError::MoreDataNeeded) ==> out is NeedMoreData
            && post == pre,
        received matches Err(e) ==> (e != CodecError::MoreDataNeeded ==> out
            == ChainOutcome::<E>::DecodeFailed(e) && post == pre),
        (received matches Ok(frame) && frame.info.media is Video) ==> out is UnsupportedMedia
            && post == pre,
        (received matches Ok(frame) && frame.info.media matches MediaInfo::Audio { format, .. }
            && pre.src_caps is None && !signed_16(format)) ==> out is UnsupportedFormat && post
            == pre,
        (received matches Ok(frame) && frame.info.media matches MediaInfo::Audio { format, .. }
            && (pre.src_caps is Some || signed_16(format)) && frame.data is Some) ==> out is Output,
        out matches ChainOutcome::Output { caps, events, buffer } ==> {
            &&& (received matches Ok(frame) && frame.info.media matches MediaInfo::Audio {
                rate,
                channels,
                ..
            } && frame.data matches Some(bytes) && buffer.data@ == bytes@ && buffer.pts == (
            match frame.info.pts {
                Some(v) => Some(v as u64),
                None => None,
            }) && buffer.duration == frame.info.duration && (caps is Some <==> pre.src_caps is None)
                && (caps matches Some(c) ==> c.rate == rate as u32 && c.channels == channels as u32))
            &&& events@ == pre.pending
            &&& post.pending.len() == 0
            &&& post.src_caps == (if pre.src_caps is None {
                caps
            } else {
                pre.src_caps
            })
            &&& post.sink_headers == pre.sink_headers
            &&& post.has_codec == pre.has_codec
        },
{
}

/// What a buffer on the sink pad does: a header buffer is dropped and
/// changes nothing; a packet the decoder refuses changes nothing and hands
/// on the decoder's error; otherwise what the decoder gave back is handled
/// as `lemma_decode_outcomes` says. The decoder is handed the buffer's
/// bytes, its timestamp read as signed, its duration and a time base of one
/// nanosecond, and is asked for a frame with its first plane only when it
/// took the packet.
pub proof fn lemma_buffer_outcomes<E>(
    pre: DecoderView<E>,
    buffer: InputBuffer,
    sent: Result<(), CodecError>,
    received: Result<DecodedFrame, CodecError>,
    post: DecoderView<E>,
    out: ChainOutcome<E>,
)
    requires
        buffer_step(pre, buffer.header, sent, received, post, out),
    ensures
        buffer.header ==> out is Skipped && post == pre && buffer_calls(buffer, sent, received).len()
            == 0,
        !buffer.header ==> (sent matches Err(e) ==> {
            &&& out == ChainOutcome::<E>::SendFailed(e)
            &&& post == pre
            &&& buffer_calls(buffer, sent, received).len() == 1
        }),
        !buffer.header && sent is Ok ==> {
            &&& decode_step(pre, received, post, out)
            &&& buffer_calls(buffer, sent, received).len() == 2
            &&& buffer_calls(buffer, sent, received)[1] == (DecoderCall::ReceiveFrame {
                plane: 0,
                frame: received,
            })
        },
        !buffer.header ==> buffer_calls(buffer, sent, received)[0] == (DecoderCall::SendPacket {
            data: buffer.data@,
            pts: match buffer.pts {
                Some(v) => Some(v as i64),
                None => None,
            },
            duration: buffer.duration,
            timebase_num: 1,
            timebase_den: 1_000_000_000,
            answer: sent,
        }),
{
}

/// A caps event's stream headers are taken whole and in order.
pub proof fn lemma_caps_headers(stream_headers: Vec<Vec<u8>>)
    ensures
        caps_headers(EventData::Caps { stream_headers }).len() == stream_headers@.len(),
        forall|k: int|
            0 <= k < stream_headers@.len() ==> #[trigger] caps_headers(
                EventData::Caps { stream_headers },
            )[k] == stream_headers@[k]@,
{
}

} // verus!
