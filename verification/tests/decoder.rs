use std::sync::Arc;

use av_codec::common::CodecList;
use av_codec::decoder::{Codecs, Decoder, Descr, Descriptor};
use av_codec::error::{Error, Result};
use av_data::audiosample::{formats, ChannelMap, Soniton};
use av_data::frame::{new_default_frame, ArcFrame, AudioInfo, FrameBufferConv};
use av_data::packet::Packet;
use av_data::timeinfo::TimeInfo;

use avdecoder::codec::{CodecError, DecodedFrame, FrameInfo, MediaInfo, PacketFields, SampleFormat};
use avdecoder::event_types::{CAPS, EOS, FLUSH_START, SEGMENT, STREAM_START};
use avdecoder::state::{
    packet_for, AudioCaps, ChainOutcome, DecoderState, EventData, InputBuffer, OutputBuffer,
    SinkEventOutcome, StateChange, StateChangeReturn,
};

const TAG: u32 = 20510;

/// How the test decoder behaves.
#[derive(Clone, Copy)]
enum Mode {
    /// Each packet gives one stereo 44.1 kHz frame of 16 samples, in the
    /// given format, whose first plane starts with the packet's bytes.
    Echo(Soniton),
    MoreData,
    Broken,
    RefusePackets,
    RefuseConfiguration,
    /// Configures itself only from exactly this setup data.
    ExpectExtradata(&'static [u8]),
    /// Configures itself only from setup data that starts with these bytes.
    ExpectPrefix(&'static [u8]),
}

struct TestDecoder {
    mode: Mode,
    extradata: Vec<u8>,
    last: Option<(Vec<u8>, Option<i64>, Option<u64>)>,
}

impl Decoder for TestDecoder {
    fn set_extradata(&mut self, extra: &[u8]) {
        self.extradata = extra.to_vec();
    }
    fn send_packet(&mut self, pkt: &Packet) -> Result<()> {
        if let Mode::RefusePackets = self.mode {
            return Err(Error::InvalidData);
        }
        let tb = pkt.t.timebase.unwrap();
        assert_eq!((*tb.numer(), *tb.denom()), (1, 1_000_000_000));
        self.last = Some((pkt.data.clone(), pkt.t.pts, pkt.t.duration));
        Ok(())
    }
    fn receive_frame(&mut self) -> Result<ArcFrame> {
        match self.mode {
            Mode::MoreData => Err(Error::MoreDataNeeded),
            Mode::Broken => Err(Error::Unsupported("broken".to_string())),
            Mode::Echo(format) => {
                let (data, pts, duration) = self.last.take().ok_or(Error::MoreDataNeeded)?;
                let info = AudioInfo {
                    samples: 16,
                    rate: 44100,
                    map: ChannelMap::default_map(2),
                    format: Arc::new(format),
                };
                let t = TimeInfo { pts, duration, ..Default::default() };
                let mut frame = new_default_frame(info, Some(t));
                {
                    let plane: &mut [u8] = frame.buf.as_mut_slice(0).unwrap();
                    for b in plane.iter_mut() {
                        *b = 0;
                    }
                    plane[..data.len()].copy_from_slice(&data);
                }
                Ok(Arc::new(frame))
            }
            _ => Err(Error::MoreDataNeeded),
        }
    }
    fn configure(&mut self) -> Result<()> {
        if let Mode::RefuseConfiguration = self.mode {
            return Err(Error::ConfigurationInvalid);
        }
        if self.extradata.is_empty() {
            return Err(Error::ConfigurationIncomplete);
        }
        if let Mode::ExpectExtradata(expected) = self.mode {
            if self.extradata != expected {
                return Err(Error::ConfigurationInvalid);
            }
        }
        if let Mode::ExpectPrefix(prefix) = self.mode {
            if !self.extradata.starts_with(prefix) {
                return Err(Error::ConfigurationInvalid);
            }
        }
        Ok(())
    }
    fn flush(&mut self) -> Result<()> {
        Ok(())
    }
}

struct TestDescr {
    descr: Descr,
    mode: Mode,
}

impl Descriptor for TestDescr {
    fn create(&self) -> Box<dyn Decoder> {
        Box::new(TestDecoder { mode: self.mode, extradata: Vec::new(), last: None })
    }
    fn describe(&self) -> &Descr {
        &self.descr
    }
}

const fn descr(codec: &'static str) -> Descr {
    Descr { codec, name: codec, desc: "test decoder", mime: "audio/x-test" }
}

const S16_ECHO: &TestDescr = &TestDescr { descr: descr("vorbis"), mode: Mode::Echo(formats::S16) };
const F32_ECHO: &TestDescr = &TestDescr { descr: descr("vorbis"), mode: Mode::Echo(formats::F32) };
const MORE_DATA: &TestDescr = &TestDescr { descr: descr("vorbis"), mode: Mode::MoreData };
const BROKEN: &TestDescr = &TestDescr { descr: descr("vorbis"), mode: Mode::Broken };
const REFUSE_PACKETS: &TestDescr = &TestDescr { descr: descr("vorbis"), mode: Mode::RefusePackets };
const REFUSE_CONFIG: &TestDescr =
    &TestDescr { descr: descr("vorbis"), mode: Mode::RefuseConfiguration };
const EXPECT_LACED: &TestDescr = &TestDescr {
    descr: descr("vorbis"),
    mode: Mode::ExpectExtradata(&[2u8, 2, 1, 1, 2, 3, 4, 5, 6]),
};
const EXPECT_LONG: &TestDescr = &TestDescr {
    descr: descr("vorbis"),
    mode: Mode::ExpectPrefix(&[2u8, 255, 1, 0]),
};
const OPUS: &TestDescr = &TestDescr { descr: descr("opus"), mode: Mode::MoreData };

fn codecs(d: &'static TestDescr) -> Codecs {
    Codecs::from_list(&[d as &'static dyn Descriptor])
}

fn headers() -> Vec<Vec<u8>> {
    vec![vec![1u8, 2, 3], vec![4u8], vec![5u8, 6]]
}

/// An element in paused state whose decoder behaves as `d`.
fn paused(d: &'static TestDescr) -> DecoderState<&'static str> {
    let mut s = DecoderState::new();
    s.prepare_transition(StateChange::ReadyToPaused, &codecs(d));
    assert!(s.has_codec());
    assert_eq!(s.finish_transition(StateChange::ReadyToPaused, StateChangeReturn::Success), StateChangeReturn::Success);
    s
}

fn configure(s: &mut DecoderState<&'static str>) {
    let out = s.sink_event("caps", CAPS, EventData::Caps { stream_headers: headers() });
    assert_eq!(out, SinkEventOutcome::Handled { flush: vec![], forward: None });
}

fn buffer(data: &[u8], pts: Option<u64>) -> InputBuffer {
    InputBuffer { header: false, data: data.to_vec(), pts, duration: Some(20) }
}

fn plane(data: &[u8]) -> Vec<u8> {
    let mut p = vec![0u8; 32];
    p[..data.len()].copy_from_slice(data);
    p
}

#[test]
fn new_state_is_empty() {
    let s: DecoderState<u32> = DecoderState::new();
    assert!(!s.has_codec());
    assert_eq!(s.src_caps(), None);
    assert_eq!(s.pending_len(), 0);
}

#[test]
fn ready_to_paused_takes_the_vorbis_decoder() {
    let mut s: DecoderState<u32> = DecoderState::new();
    s.prepare_transition(StateChange::NullToReady, &codecs(S16_ECHO));
    assert!(!s.has_codec());
    s.prepare_transition(StateChange::ReadyToPaused, &codecs(OPUS));
    assert!(!s.has_codec());
    s.prepare_transition(StateChange::ReadyToPaused, &Codecs::new());
    assert!(!s.has_codec());
    s.prepare_transition(StateChange::ReadyToPaused, &codecs(S16_ECHO));
    assert!(s.has_codec());
}

#[test]
fn events_before_caps_pass_through() {
    let mut s = paused(S16_ECHO);
    assert_eq!(
        s.sink_event("start", STREAM_START, EventData::Plain),
        SinkEventOutcome::Handled { flush: vec![], forward: Some("start") }
    );
    assert_eq!(
        s.sink_event("flush", FLUSH_START, EventData::Plain),
        SinkEventOutcome::Handled { flush: vec![], forward: Some("flush") }
    );
    assert_eq!(s.pending_len(), 0);
}

#[test]
fn caps_event_configures_and_is_dropped() {
    let mut s = paused(S16_ECHO);
    configure(&mut s);
    assert_eq!(s.pending_len(), 0);
    assert_eq!(s.src_caps(), None);
}

#[test]
fn refused_configuration_is_reported() {
    let mut s = paused(REFUSE_CONFIG);
    let out = s.sink_event("caps", CAPS, EventData::Caps { stream_headers: headers() });
    assert_eq!(out, SinkEventOutcome::ConfigureFailed(CodecError::ConfigurationInvalid));
}

#[test]
fn segment_not_in_time_is_rejected() {
    let mut s = paused(S16_ECHO);
    assert_eq!(
        s.sink_event("bytes", SEGMENT, EventData::Segment { time_format: false }),
        SinkEventOutcome::Rejected
    );
    assert_eq!(s.pending_len(), 0);
}

#[test]
fn serialized_events_wait_for_caps_and_come_out_in_order() {
    let mut s = paused(S16_ECHO);
    configure(&mut s);
    assert_eq!(
        s.sink_event("segment", SEGMENT, EventData::Segment { time_format: true }),
        SinkEventOutcome::Queued
    );
    assert_eq!(s.sink_event("tag", TAG, EventData::Plain), SinkEventOutcome::Queued);
    assert_eq!(
        s.sink_event("flush", FLUSH_START, EventData::Plain),
        SinkEventOutcome::Handled { flush: vec![], forward: Some("flush") }
    );
    assert_eq!(s.pending_len(), 2);
    let out = s.sink_chain(buffer(&[9, 8, 7], Some(1_000)));
    assert_eq!(
        out,
        ChainOutcome::Output {
            caps: Some(AudioCaps { rate: 44100, channels: 2 }),
            events: vec!["segment", "tag"],
            buffer: OutputBuffer { data: plane(&[9, 8, 7]), pts: Some(1_000), duration: Some(20) },
        }
    );
    assert_eq!(s.pending_len(), 0);
    assert_eq!(s.src_caps(), Some(AudioCaps { rate: 44100, channels: 2 }));
    // After the caps, events pass straight through and caps stay.
    assert_eq!(
        s.sink_event("tag2", TAG, EventData::Plain),
        SinkEventOutcome::Handled { flush: vec![], forward: Some("tag2") }
    );
    let out = s.sink_chain(buffer(&[1], None));
    assert_eq!(
        out,
        ChainOutcome::Output {
            caps: None,
            events: vec![],
            buffer: OutputBuffer { data: plane(&[1]), pts: None, duration: Some(20) },
        }
    );
}

#[test]
fn end_of_stream_flushes_the_queue() {
    let mut s = paused(S16_ECHO);
    configure(&mut s);
    assert_eq!(s.sink_event("tag", TAG, EventData::Plain), SinkEventOutcome::Queued);
    assert_eq!(s.sink_event("gap", 40966, EventData::Plain), SinkEventOutcome::Queued);
    assert_eq!(
        s.sink_event("eos", EOS, EventData::Plain),
        SinkEventOutcome::Handled { flush: vec!["tag", "gap"], forward: Some("eos") }
    );
    assert_eq!(s.pending_len(), 0);
}

#[test]
fn header_buffers_are_skipped() {
    let mut s = paused(S16_ECHO);
    let b = InputBuffer { header: true, data: vec![1, 2], pts: None, duration: None };
    assert_eq!(s.sink_chain(b), ChainOutcome::Skipped);
    let mut empty: DecoderState<u32> = DecoderState::new();
    let b = InputBuffer { header: true, data: vec![], pts: None, duration: None };
    assert_eq!(empty.sink_chain(b), ChainOutcome::Skipped);
}

#[test]
fn timestamps_pass_through_the_decoder() {
    let mut s = paused(S16_ECHO);
    configure(&mut s);
    let out = s.sink_chain(buffer(&[3], Some(u64::MAX - 1)));
    match out {
        ChainOutcome::Output { buffer, .. } => assert_eq!(buffer.pts, Some(u64::MAX - 1)),
        other => panic!("unexpected {:?}", other),
    }
}

#[test]
fn decoder_needing_more_data() {
    let mut s = paused(MORE_DATA);
    configure(&mut s);
    assert_eq!(s.sink_event("tag", TAG, EventData::Plain), SinkEventOutcome::Queued);
    assert_eq!(s.sink_chain(buffer(&[1], None)), ChainOutcome::NeedMoreData);
    assert_eq!(s.pending_len(), 1);
    assert_eq!(s.src_caps(), None);
}

#[test]
fn decoder_errors() {
    let mut s = paused(BROKEN);
    configure(&mut s);
    assert_eq!(
        s.sink_chain(buffer(&[1], None)),
        ChainOutcome::DecodeFailed(CodecError::Unsupported("broken".to_string()))
    );
    let mut s = paused(REFUSE_PACKETS);
    configure(&mut s);
    assert_eq!(s.sink_chain(buffer(&[1], None)), ChainOutcome::SendFailed(CodecError::InvalidData));
}

#[test]
fn first_frame_must_be_s16() {
    let mut s = paused(F32_ECHO);
    configure(&mut s);
    assert_eq!(s.sink_event("tag", TAG, EventData::Plain), SinkEventOutcome::Queued);
    assert_eq!(s.sink_chain(buffer(&[1], None)), ChainOutcome::UnsupportedFormat);
    assert_eq!(s.pending_len(), 1);
    assert_eq!(s.src_caps(), None);
}

fn s16() -> SampleFormat {
    SampleFormat { bits: 16, be: false, packed: false, planar: false, float: false, signed: true }
}

#[test]
fn handling_decoded_frames() {
    let mut s: DecoderState<u32> = DecoderState::new();
    assert_eq!(s.handle_decoded(Err(CodecError::MoreDataNeeded)), ChainOutcome::NeedMoreData);
    assert_eq!(
        s.handle_decoded(Err(CodecError::InvalidData)),
        ChainOutcome::DecodeFailed(CodecError::InvalidData)
    );
    let video = DecodedFrame {
        info: FrameInfo { media: MediaInfo::Video, pts: None, duration: None },
        data: Some(vec![1]),
    };
    assert_eq!(s.handle_decoded(Ok(video)), ChainOutcome::UnsupportedMedia);
    let no_plane = DecodedFrame {
        info: FrameInfo {
            media: MediaInfo::Audio { rate: 8000, channels: 1, format: s16() },
            pts: None,
            duration: None,
        },
        data: None,
    };
    assert_eq!(s.handle_decoded(Ok(no_plane)), ChainOutcome::NoPlane);
    assert_eq!(s.src_caps(), None);
    let frame = DecodedFrame {
        info: FrameInfo {
            media: MediaInfo::Audio { rate: (1usize << 32) + 8000, channels: 1, format: s16() },
            pts: Some(-2),
            duration: Some(5),
        },
        data: Some(vec![4, 5]),
    };
    assert_eq!(
        s.handle_decoded(Ok(frame)),
        ChainOutcome::Output {
            caps: Some(AudioCaps { rate: 8000, channels: 1 }),
            events: vec![],
            buffer: OutputBuffer { data: vec![4, 5], pts: Some(u64::MAX - 1), duration: Some(5) },
        }
    );
    // Once the caps are set, another format no longer matters.
    let other = DecodedFrame {
        info: FrameInfo {
            media: MediaInfo::Audio {
                rate: 48000,
                channels: 2,
                format: SampleFormat { bits: 32, be: false, packed: false, planar: false, float: true, signed: true },
            },
            pts: None,
            duration: None,
        },
        data: Some(vec![]),
    };
    assert_eq!(
        s.handle_decoded(Ok(other)),
        ChainOutcome::Output {
            caps: None,
            events: vec![],
            buffer: OutputBuffer { data: vec![], pts: None, duration: None },
        }
    );
    assert_eq!(s.src_caps(), Some(AudioCaps { rate: 8000, channels: 1 }));
}

#[test]
fn finishing_caps() {
    let mut s: DecoderState<u32> = DecoderState::new();
    assert_eq!(
        s.finish_caps(headers(), Err(CodecError::ConfigurationIncomplete)),
        SinkEventOutcome::ConfigureFailed(CodecError::ConfigurationIncomplete)
    );
    assert_eq!(s.finish_caps(headers(), Ok(())), SinkEventOutcome::Handled { flush: vec![], forward: None });
}

#[test]
fn paused_to_ready_resets() {
    let mut s = paused(S16_ECHO);
    configure(&mut s);
    assert_eq!(s.sink_event("tag", TAG, EventData::Plain), SinkEventOutcome::Queued);
    assert_eq!(
        s.finish_transition(StateChange::PausedToReady, StateChangeReturn::Failure),
        StateChangeReturn::Failure
    );
    assert!(s.has_codec());
    assert_eq!(s.pending_len(), 1);
    assert_eq!(
        s.finish_transition(StateChange::PlayingToPaused, StateChangeReturn::Async),
        StateChangeReturn::Async
    );
    assert_eq!(s.pending_len(), 1);
    assert_eq!(
        s.finish_transition(StateChange::PausedToReady, StateChangeReturn::Success),
        StateChangeReturn::Success
    );
    assert!(!s.has_codec());
    assert_eq!(s.pending_len(), 0);
    assert_eq!(s.src_caps(), None);
}

#[test]
fn announced_caps_fit_the_source_template() {
    let mut s = paused(S16_ECHO);
    configure(&mut s);
    let caps = match s.sink_chain(buffer(&[1], None)) {
        ChainOutcome::Output { caps: Some(caps), .. } => caps,
        other => panic!("unexpected {:?}", other),
    };
    match avdecoder::element::src_pad_template().caps {
        avdecoder::element::TemplateCaps::RawAudio { rate_min, rate_max, channels_min, channels_max } => {
            assert!(rate_min as i64 <= caps.rate as i64 && caps.rate as i64 <= rate_max as i64);
            assert!(channels_min as i64 <= caps.channels as i64 && caps.channels as i64 <= channels_max as i64);
        }
        other => panic!("unexpected {:?}", other),
    }
}

#[test]
fn packets_for_buffers() {
    let b = InputBuffer { header: false, data: vec![1, 2, 3], pts: Some(u64::MAX), duration: Some(7) };
    assert_eq!(
        packet_for(b),
        PacketFields { data: vec![1, 2, 3], pts: Some(-1), duration: Some(7), timebase_num: 1, timebase_den: 1_000_000_000 }
    );
    let b = InputBuffer { header: false, data: vec![], pts: None, duration: None };
    assert_eq!(
        packet_for(b),
        PacketFields { data: vec![], pts: None, duration: None, timebase_num: 1, timebase_den: 1_000_000_000 }
    );
}

#[test]
fn caps_hand_the_laced_headers_to_the_decoder() {
    let mut s: DecoderState<&'static str> = paused(EXPECT_LACED);
    let headers = vec![vec![1u8, 2], vec![3u8], vec![4u8, 5, 6]];
    assert_eq!(
        s.sink_event("caps", CAPS, EventData::Caps { stream_headers: headers }),
        SinkEventOutcome::Handled { flush: vec![], forward: None }
    );
    // Other headers give other setup data, which this decoder refuses.
    let mut s: DecoderState<&'static str> = paused(EXPECT_LACED);
    let headers = vec![vec![1u8], vec![3u8], vec![4u8, 5, 6]];
    assert_eq!(
        s.sink_event("caps", CAPS, EventData::Caps { stream_headers: headers }),
        SinkEventOutcome::ConfigureFailed(CodecError::ConfigurationInvalid)
    );
}

#[test]
fn caps_lace_a_long_header() {
    let mut s: DecoderState<&'static str> = paused(EXPECT_LONG);
    let headers = vec![vec![0u8; 300], vec![], vec![]];
    assert_eq!(
        s.sink_event("caps", CAPS, EventData::Caps { stream_headers: headers }),
        SinkEventOutcome::Handled { flush: vec![], forward: None }
    );
    let mut s: DecoderState<&'static str> = paused(EXPECT_LONG);
    let headers = vec![vec![0u8; 255], vec![], vec![]];
    assert_eq!(
        s.sink_event("caps", CAPS, EventData::Caps { stream_headers: headers }),
        SinkEventOutcome::ConfigureFailed(CodecError::ConfigurationInvalid)
    );
}

#[test]
fn a_run_announces_caps_once_and_keeps_event_order() {
    let mut s = paused(S16_ECHO);
    configure(&mut s);
    assert_eq!(s.sink_event("a", TAG, EventData::Plain), SinkEventOutcome::Queued);
    assert_eq!(s.sink_chain(buffer(&[1], Some(5))), ChainOutcome::Output {
        caps: Some(AudioCaps { rate: 44100, channels: 2 }),
        events: vec!["a"],
        buffer: OutputBuffer { data: plane(&[1]), pts: Some(5), duration: Some(20) },
    });
    for i in 0..3u8 {
        match s.sink_chain(buffer(&[i], None)) {
            ChainOutcome::Output { caps, events, .. } => {
                assert_eq!(caps, None);
                assert!(events.is_empty());
            }
            other => panic!("unexpected {:?}", other),
        }
    }
    assert_eq!(
        s.sink_event("eos", EOS, EventData::Plain),
        SinkEventOutcome::Handled { flush: vec![], forward: Some("eos") }
    );
}
