//! A Vorbis audio decoder element: the decisions of a GStreamer element that
//! feeds the rust-av Vorbis decoder, verified with Verus.

pub mod lacing;
pub mod event_types;
pub mod timing;
pub mod codec;
pub mod state;
pub mod element;
