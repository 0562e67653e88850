//! What the element and its plugin tell GStreamer about themselves: the
//! element's metadata, its pad templates, and its registration.

use vstd::prelude::*;

use crate::state::AudioCaps;

verus! {

/// The element's metadata.
#[derive(Debug, PartialEq, Eq)]
pub struct ElementMetadata {
    pub long_name: String,
    pub classification: String,
    pub description: String,
    pub author: String,
}

/// The direction of a pad.
#[derive(Debug, Clone, Copy, PartialEq, Eq)]
pub enum PadDirection {
    Sink,
    Src,
}

/// The caps of a pad template.
#[derive(Debug, Clone, Copy, PartialEq, Eq)]
pub enum TemplateCaps {
    /// `audio/x-vorbis`.
    Vorbis,
    /// `audio/x-raw`: signed 16-bit samples in native byte order,
    /// interleaved, with a rate and a channel count in these ranges.
    RawAudio { rate_min: i32, rate_max: i32, channels_min: i32, channels_max: i32 },
}

/// A pad template; both of the element's pads are always there.
#[derive(Debug, PartialEq, Eq)]
pub struct PadTemplateInfo {
    pub name: String,
    pub direction: PadDirection,
    pub caps: TemplateCaps,
}

/// The registration of the element with a plugin.
#[derive(Debug, PartialEq, Eq)]
pub struct ElementRegistration {
    /// The factory name.
    pub name: String,
    /// The name of the element's type.
    pub element_type: String,
    /// The rank (none).
    pub rank: u32,
}

/// The caps of the source pad template.
pub open spec fn src_template_caps() -> TemplateCaps {
    TemplateCaps::RawAudio { rate_min: 1, rate_max: i32::MAX, channels_min: 1, channels_max: i32::MAX }
}

/// Whether caps fall within a template.
pub open spec fn template_accepts(t: TemplateCaps, caps: AudioCaps) -> bool {
    match t {
        TemplateCaps::Vorbis => false,
        TemplateCaps::RawAudio { rate_min, rate_max, channels_min, channels_max } => {
            &&& rate_min <= caps.rate <= rate_max
            &&& channels_min <= caps.channels <= channels_max
        },
    }
}

/// The element's metadata.
pub fn element_metadata() -> (m: ElementMetadata)
    ensures
        m.long_name@ == "Rust AV Decoder"@,
        m.classification@ == "Decoder"@,
        m.description@ == "Rust AV Decoder"@,
        m.author@ == "Sebastian Dröge <sebastian@centricular.com>"@,
{
    ElementMetadata {
        long_name: "Rust AV Decoder".to_owned(),
        classification: "Decoder".to_owned(),
        description: "Rust AV Decoder".to_owned(),
        author: "Sebastian Dröge <sebastian@centricular.com>".to_owned(),
    }
}

/// The sink pad template: Vorbis audio.
pub fn sink_pad_template() -> (t: PadTemplateInfo)
    ensures
        t.name@ == "sink"@,
        t.direction == PadDirection::Sink,
        t.caps == TemplateCaps::Vorbis,
{
    PadTemplateInfo { name: "sink".to_owned(), direction: PadDirection::Sink, caps: TemplateCaps::Vorbis }
}

/// The source pad template: raw audio at any positive rate and channel
/// count that fits an `i32`.
pub fn src_pad_template() -> (t: PadTemplateInfo)
    ensures
        t.name@ == "src"@,
        t.direction == PadDirection::Src,
        t.caps == src_template_caps(),
{
    PadTemplateInfo {
        name: "src".to_owned(),
        direction: PadDirection::Src,
        caps: TemplateCaps::RawAudio {
            rate_min: 1,
            rate_max: i32::MAX,
            channels_min: 1,
            channels_max: i32::MAX,
        },
    }
}

/// The caps that the element announces for a first frame fall within its
/// source pad template when the frame's rate and channel count are
/// positive and fit an `i32`.
pub proof fn lemma_announced_caps_fit_template(rate: usize, channels: usize)
    requires
        1 <= rate <= i32::MAX,
        1 <= channels <= i32::MAX,
    ensures
        template_accepts(
            src_template_caps(),
            AudioCaps { rate: rate as u32, channels: channels as u32 },
        ),
{
}

/// The registration of the decoder element.
pub fn register() -> (r: ElementRegistration)
    ensures
        r.name@ == "avdecoder_vorbis"@,
        r.element_type@ == "AVDecoder"@,
        r.rank == 0,
{
    ElementRegistration {
        name: "avdecoder_vorbis".to_owned(),
        element_type: "AVDecoder".to_owned(),
        rank: 0,
    }
}

/// The plugin's start: the elements it registers, here the one decoder.
pub fn plugin_init() -> (r: Vec<ElementRegistration>)
    ensures
        r.len() == 1,
        r[0].name@ == "avdecoder_vorbis"@,
        r[0].element_type@ == "AVDecoder"@,
        r[0].rank == 0,
{
    let mut r: Vec<ElementRegistration> = Vec::new();
    r.push(register());
    r
}

} // verus!
