//! GStreamer event types, taken by their numeric values (`GstEventType`).
//!
//! A type's value carries its flags in the low byte; the serialized flag is
//! `4`. Serialized events are ordered by their value between stream-start
//! and segment, and end-of-stream comes after every other serialized event.

use vstd::prelude::*;

verus! {

/// The flag that marks an event type as serialized with the data flow.
pub const EVENT_TYPE_SERIALIZED: u32 = 4;
/// `GST_EVENT_FLUSH_START`.
pub const FLUSH_START: u32 = 2563;
/// `GST_EVENT_FLUSH_STOP`.
pub const FLUSH_STOP: u32 = 5127;
/// `GST_EVENT_STREAM_START`.
pub const STREAM_START: u32 = 10254;
/// `GST_EVENT_CAPS`.
pub const CAPS: u32 = 12814;
/// `GST_EVENT_SEGMENT`.
pub const SEGMENT: u32 = 17934;
/// `GST_EVENT_EOS`.
pub const EOS: u32 = 28174;
/// `GST_EVENT_GAP`.
pub const GAP: u32 = 40966;

/// The kinds of events that the decoder treats apart.
#[derive(Debug, Clone, Copy, PartialEq, Eq)]
pub enum EventKind {
    FlushStart,
    FlushStop,
    Segment,
    Caps,
    Eos,
    Gap,
    Other,
}

/// Where one serialized event type stands relative to another.
#[derive(Debug, Clone, Copy, PartialEq, Eq)]
pub enum EventOrder {
    Before,
    Same,
    After,
}

/// The kind of an event type.
pub open spec fn kind_of(event_type: u32) -> EventKind {
    if event_type == FLUSH_START {
        EventKind::FlushStart
    } else if event_type == FLUSH_STOP {
        EventKind::FlushStop
    } else if event_type == SEGMENT {
        EventKind::Segment
    } else if event_type == CAPS {
        EventKind::Caps
    } else if event_type == EOS {
        EventKind::Eos
    } else if event_type == GAP {
        EventKind::Gap
    } else {
        EventKind::Other
    }
}

/// Whether an event type is serialized with the data flow.
pub open spec fn serialized(event_type: u32) -> bool {
    event_type & EVENT_TYPE_SERIALIZED != 0
}

/// The order of two numbers.
pub open spec fn order_of(a: u32, b: u32) -> EventOrder {
    if a < b {
        EventOrder::Before
    } else if a == b {
        EventOrder::Same
    } else {
        EventOrder::After
    }
}

/// The order of two event types in a stream, where there is one: both must
/// be serialized; where either lies between stream-start and segment the
/// values are compared; otherwise only end-of-stream is ordered, after all
/// else.
pub open spec fn event_order_of(a: u32, b: u32) -> Option<EventOrder> {
    if !serialized(a) || !serialized(b) {
        None
    } else if (STREAM_START <= a <= SEGMENT) || (STREAM_START <= b <= SEGMENT) {
        Some(order_of(a, b))
    } else if a == EOS || b == EOS {
        if a == b {
            Some(EventOrder::Same)
        } else if a == EOS {
            Some(EventOrder::After)
        } else {
            Some(EventOrder::Before)
        }
    } else {
        None
    }
}

/// The kind of an event type.
pub fn event_kind(event_type: u32) -> (k: EventKind)
    ensures
        k == kind_of(event_type),
{
    if event_type == FLUSH_START {
        EventKind::FlushStart
    } else if event_type == FLUSH_STOP {
        EventKind::FlushStop
    } else if event_type == SEGMENT {
        EventKind::Segment
    } else if event_type == CAPS {
        EventKind::Caps
    } else if event_type == EOS {
        EventKind::Eos
    } else if event_type == GAP {
        EventKind::Gap
    } else {
        EventKind::Other
    }
}

/// Whether an event type is serialized with the data flow.
pub fn is_serialized(event_type: u32) -> (r: bool)
    ensures
        r == serialized(event_type),
{
    event_type & EVENT_TYPE_SERIALIZED != 0
}

/// The order of two event types in a stream, where there is one.
pub fn event_order(a: u32, b: u32) -> (r: Option<EventOrder>)
    ensures
        r == event_order_of(a, b),
{
    if !is_serialized(a) || !is_serialized(b) {
        None
    } else if (STREAM_START <= a && a <= SEGMENT) || (STREAM_START <= b && b <= SEGMENT) {
        if a < b {
            Some(EventOrder::Before)
        } else if a == b {
            Some(EventOrder::Same)
        } else {
            Some(EventOrder::After)
        }
    } else if a == EOS || b == EOS {
        if a == b {
            Some(EventOrder::Same)
        } else if a == EOS {
            Some(EventOrder::After)
        } else {
            Some(EventOrder::Before)
        }
    } else {
        None
    }
}

/// Whether an event type is serialized and comes after the caps event.
pub open spec fn follows_caps(event_type: u32) -> bool {
    event_order_of(event_type, CAPS) == Some(EventOrder::After)
}

/// The caps event is serialized and lies between stream-start and
/// segment, so every serialized type is ordered against it by its value.
pub proof fn lemma_follows_caps(event_type: u32)
    ensures
        follows_caps(event_type) <==> serialized(event_type) && event_type > CAPS,
{
    assert(CAPS & EVENT_TYPE_SERIALIZED != 0) by (bit_vector);
}

/// The order of serialized event types is reversed when the two are
/// swapped.
pub proof fn lemma_event_order_flips(a: u32, b: u32)
    ensures
        event_order_of(a, b) == Some(EventOrder::After) <==> event_order_of(b, a) == Some(
            EventOrder::Before,
        ),
        event_order_of(a, b) is None <==> event_order_of(b, a) is None,
{
}

} // verus!
