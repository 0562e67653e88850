//! The rust-av decoder behind the element, and the plain values that the
//! element reads from it.
//!
//! The decoder itself is a `Context` of av-codec around a decoder that the
//! codec list supplies; what it decodes depends on that decoder's state,
//! so the calls into it promise nothing of their results, and the element
//! takes those results as they come.

use vstd::prelude::*;

use av_codec::decoder::{Codecs, Context};
use av_data::frame::{Frame, FrameBufferConv, MediaKind};
use av_data::packet::Packet;
use av_data::rational::Rational64;

verus! {

#[verifier::external_type_specification]
#[verifier::external_body]
pub struct ExContext(Context);

#[verifier::external_type_specification]
#[verifier::external_body]
pub struct ExCodecs(Codecs);

#[verifier::external_type_specification]
#[verifier::external_body]
pub struct ExFrame(Frame);

#[verifier::external_type_specification]
pub struct ExAvError(av_codec::error::Error);

/// The errors that the decoder reports.
#[derive(Debug, PartialEq, Eq)]
pub enum CodecError {
    InvalidData,
    MoreDataNeeded,
    ConfigurationIncomplete,
    ConfigurationInvalid,
    Unsupported(String),
}

/// The layout of an audio sample (av-data's `Soniton`).
#[derive(Debug, Clone, Copy, PartialEq, Eq)]
pub struct SampleFormat {
    pub bits: u8,
    pub be: bool,
    pub packed: bool,
    pub planar: bool,
    pub float: bool,
    pub signed: bool,
}

/// What a decoded frame holds.
#[derive(Debug, Clone, Copy, PartialEq, Eq)]
pub enum MediaInfo {
    Audio { rate: usize, channels: usize, format: SampleFormat },
    Video,
}

/// The kind and the timing of a decoded frame.
#[derive(Debug, Clone, Copy, PartialEq, Eq)]
pub struct FrameInfo {
    pub media: MediaInfo,
    pub pts: Option<i64>,
    pub duration: Option<u64>,
}

/// A decoded frame as plain values: its kind and timing, and the bytes of
/// its first plane where the frame has one.
#[derive(Debug, PartialEq, Eq)]
pub struct DecodedFrame {
    pub info: FrameInfo,
    pub data: Option<Vec<u8>>,
}

/// The contents of a packet for the decoder: its bytes, timestamp and
/// duration, and the time base `timebase_num / timebase_den`.
#[derive(Debug, PartialEq, Eq)]
pub struct PacketFields {
    pub data: Vec<u8>,
    pub pts: Option<i64>,
    pub duration: Option<u64>,
    pub timebase_num: i64,
    pub timebase_den: i64,
}

/// Signed 16-bit samples, little endian, interleaved (av-data's
/// `formats::S16`).
pub open spec fn is_s16(f: SampleFormat) -> bool {
    f.bits == 16 && !f.be && !f.packed && !f.planar && !f.float && f.signed
}

/// Whether a sample format is signed 16-bit interleaved little endian.
pub fn sample_format_is_s16(f: &SampleFormat) -> (r: bool)
    ensures
        r == is_s16(*f),
{
    f.bits == 16 && !f.be && !f.packed && !f.planar && !f.float && f.signed
}

/// The library's error for a decoder error, variant by variant.
pub open spec fn codec_error_of(e: av_codec::error::Error) -> CodecError {
    match e {
        av_codec::error::Error::InvalidData => CodecError::InvalidData,
        av_codec::error::Error::MoreDataNeeded => CodecError::MoreDataNeeded,
        av_codec::error::Error::ConfigurationIncomplete => CodecError::ConfigurationIncomplete,
        av_codec::error::Error::ConfigurationInvalid => CodecError::ConfigurationInvalid,
        av_codec::error::Error::Unsupported(s) => CodecError::Unsupported(s),
    }
}

/// A decoder's answer, its error taken as the library's error.
pub open spec fn answer_of<T>(r: Result<T, av_codec::error::Error>) -> Result<T, CodecError> {
    match r {
        Ok(v) => Ok(v),
        Err(e) => Err(codec_error_of(e)),
    }
}

/// The library's error for a decoder error.
pub fn codec_error(e: av_codec::error::Error) -> (r: CodecError)
    ensures
        r == codec_error_of(e),
{
    match e {
        av_codec::error::Error::InvalidData => CodecError::InvalidData,
        av_codec::error::Error::MoreDataNeeded => CodecError::MoreDataNeeded,
        av_codec::error::Error::ConfigurationIncomplete => CodecError::ConfigurationIncomplete,
        av_codec::error::Error::ConfigurationInvalid => CodecError::ConfigurationInvalid,
        av_codec::error::Error::Unsupported(s) => CodecError::Unsupported(s),
    }
}

/// A decoder's answer, its error taken as the library's error.
pub fn answer<T>(r: Result<T, av_codec::error::Error>) -> (a: Result<T, CodecError>)
    ensures
        a == answer_of(r),
{
    match r {
        Ok(v) => Ok(v),
        Err(e) => Err(codec_error(e)),
    }
}

/// The names under which a codec list offers decoders.
pub uninterp spec fn codec_names(codecs: Codecs) -> Set<Seq<char>>;

/// What the library has handed a decoder, call by call, with what the
/// decoder answered.
pub enum DecoderCall {
    /// Setup data.
    SetExtradata(Seq<u8>),
    /// A request to configure itself from the setup data, and its answer.
    Configure(Result<(), CodecError>),
    /// A packet (its bytes, timestamp, duration and time base), and the
    /// answer.
    SendPacket {
        data: Seq<u8>,
        pts: Option<i64>,
        duration: Option<u64>,
        timebase_num: i64,
        timebase_den: i64,
        answer: Result<(), CodecError>,
    },
    /// A request for a decoded frame, and the frame that came back (read
    /// with the bytes of plane `plane`) or the error.
    ReceiveFrame { plane: usize, frame: Result<DecodedFrame, CodecError> },
}

/// The call that hands a decoder a packet with these fields, answered so.
pub open spec fn send_packet_call(fields: PacketFields, answer: Result<(), CodecError>) -> DecoderCall {
    DecoderCall::SendPacket {
        data: fields.data@,
        pts: fields.pts,
        duration: fields.duration,
        timebase_num: fields.timebase_num,
        timebase_den: fields.timebase_den,
        answer,
    }
}

/// A decoder (an av-codec `Context`), with the record of what it has been
/// handed since it was made and what it answered.
pub struct Decoder {
    ctx: Context,
    calls: Ghost<Seq<DecoderCall>>,
}

impl Decoder {
    /// What the decoder has been handed since it was made, in order, with
    /// its answers.
    pub closed spec fn calls(&self) -> Seq<DecoderCall> {
        self.calls@
    }
}

/// `Context::by_name` of av-codec: a fresh decoder from the list's first
/// descriptor under `name`. `Codecs::by_name` looks the name up among the
/// descriptors the list was given, so there is a decoder exactly when the
/// list holds that name; the new decoder has been handed nothing yet.
#[verifier::external_body]
pub(crate) fn codec_by_name(codecs: &Codecs, name: &str) -> (r: Option<Decoder>)
    ensures
        r.is_some() <==> codec_names(*codecs).contains(name@),
        r matches Some(d) ==> d.calls() == Seq::<DecoderCall>::empty(),
{
    match Context::by_name(codecs, name) {
        Some(ctx) => Some(Decoder { ctx, calls: Ghost(Seq::empty()) }),
        None => None,
    }
}

/// `Context::set_extradata` of av-codec: hands the setup data to the
/// decoder. What the decoder does with it is its own.
#[verifier::external_body]
pub(crate) fn codec_set_extradata(dec: &mut Decoder, extra: &[u8])
    ensures
        final(dec).calls() == old(dec).calls().push(DecoderCall::SetExtradata(extra@)),
{
    dec.ctx.set_extradata(extra)
}

/// `Context::configure` of av-codec. Whether the decoder accepts its setup
/// rests on the decoder; the answer is recorded as it came.
#[verifier::external_body]
pub(crate) fn codec_configure(dec: &mut Decoder) -> (r: Result<(), av_codec::error::Error>)
    ensures
        final(dec).calls() == old(dec).calls().push(DecoderCall::Configure(answer_of(r))),
{
    dec.ctx.configure()
}

/// `Context::send_packet` of av-codec, on a packet made of the given
/// fields, its time base made by `Rational64::new` (which panics on a zero
/// denominator and, when it reduces a negative one, may overflow: both
/// parts are kept positive). Whether the decoder takes the packet rests on
/// the decoder; the answer is recorded as it came.
#[verifier::external_body]
pub(crate) fn codec_send_packet(dec: &mut Decoder, fields: &PacketFields) -> (r: Result<
    (),
    av_codec::error::Error,
>)
    requires
        fields.timebase_num > 0,
        fields.timebase_den > 0,
    ensures
        final(dec).calls() == old(dec).calls().push(send_packet_call(*fields, answer_of(r))),
{
    let mut packet = Packet::with_capacity(fields.data.len());
    packet.data.extend_from_slice(&fields.data);
    packet.t.pts = fields.pts;
    packet.t.duration = fields.duration;
    packet.t.timebase = Some(Rational64::new(fields.timebase_num, fields.timebase_den));
    dec.ctx.send_packet(&packet)
}

/// `Context::receive_frame` of av-codec, the frame read as plain values:
/// the kind from its fields (the channel count from `ChannelMap::len`),
/// the timing, and the bytes of plane `plane` from `FrameBufferConv::
/// as_slice` (`None` where the frame has no such plane). What comes out
/// rests on the decoder; the answer is recorded as it came.
#[verifier::external_body]
pub(crate) fn codec_receive_frame(dec: &mut Decoder, plane: usize) -> (r: Result<
    DecodedFrame,
    av_codec::error::Error,
>)
    ensures
        final(dec).calls() == old(dec).calls().push(
            DecoderCall::ReceiveFrame { plane, frame: answer_of(r) },
        ),
{
    let frame = dec.ctx.receive_frame()?;
    let media = match &frame.kind {
        MediaKind::Audio(a) => {
            let f = &a.format;
            let format = SampleFormat {
                bits: f.bits, be: f.be, packed: f.packed, planar: f.planar, float: f.float,
                signed: f.signed,
            };
            MediaInfo::Audio { rate: a.rate, channels: a.map.len(), format }
        },
        MediaKind::Video(_) => MediaInfo::Video,
    };
    let data = FrameBufferConv::<u8>::as_slice(&*frame.buf, plane).ok().map(|b| b.to_vec());
    Ok(DecodedFrame { info: FrameInfo { media, pts: frame.t.pts, duration: frame.t.duration }, data })
}

} // verus!
