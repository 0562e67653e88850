//! Timestamps between GStreamer buffers (unsigned nanoseconds) and rust-av
//! packets and frames (signed values in a time base).

use vstd::prelude::*;

verus! {

/// Nanoseconds in a second: the denominator of the packets' time base.
pub const SECOND: i64 = 1_000_000_000;

/// The packet timestamp of a buffer timestamp: the same 64 bits, read as
/// a signed value.
pub open spec fn packet_pts_of(pts: Option<u64>) -> Option<i64> {
    match pts {
        Some(v) => Some(v as i64),
        None => None,
    }
}

/// The buffer timestamp of a frame timestamp: the same 64 bits, read as an
/// unsigned value.
pub open spec fn buffer_pts_of(pts: Option<i64>) -> Option<u64> {
    match pts {
        Some(v) => Some(v as u64),
        None => None,
    }
}

/// The packet timestamp of a buffer timestamp.
pub fn packet_pts(pts: Option<u64>) -> (r: Option<i64>)
    ensures
        r == packet_pts_of(pts),
{
    match pts {
        Some(v) => Some(v as i64),
        None => None,
    }
}

/// The buffer timestamp of a frame timestamp.
pub fn buffer_pts(pts: Option<i64>) -> (r: Option<u64>)
    ensures
        r == buffer_pts_of(pts),
{
    match pts {
        Some(v) => Some(v as u64),
        None => None,
    }
}

/// A timestamp that goes into a packet and comes back unchanged on a
/// frame is the buffer's timestamp again.
pub proof fn lemma_pts_round_trip(pts: Option<u64>)
    ensures
        buffer_pts_of(packet_pts_of(pts)) == pts,
{
    if let Some(v) = pts {
        assert((v as i64) as u64 == v) by (bit_vector);
    }
}

} // verus!
