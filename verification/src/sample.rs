//! The boundary event record: what a delivered event looks like to the
//! caller on the far side of the boundary.

use vstd::prelude::*;

verus! {

/// A boundary event record, constructed fresh for every delivered event and
/// never retained across callback invocations. The payload is carried as
/// plain bytes; the unverified rim turns it into the pointer-and-length
/// pair the boundary hands out.
#[allow(non_camel_case_types)]
#[derive(Clone, Debug)]
pub struct z_sample_t {
    /// The key expression the event was delivered on.
    pub keyexpr: String,
    /// The event's payload bytes.
    pub payload: Vec<u8>,
    /// The payload's encoding tag.
    pub encoding: u64,
    /// The event's kind tag.
    pub kind: u64,
    /// The event's timestamp, when the native library attached one.
    pub timestamp: Option<u64>,
}

/// Builds the boundary record for one delivered native event. Every field
/// of the record is exactly what the native event carried: nothing is
/// reordered, dropped or invented on the way to the caller.
pub fn build_sample(
    keyexpr: String,
    payload: Vec<u8>,
    encoding: u64,
    kind: u64,
    timestamp: Option<u64>,
) -> (s: z_sample_t)
    ensures
        s.keyexpr == keyexpr,
        s.payload == payload,
        s.encoding == encoding,
        s.kind == kind,
        s.timestamp == timestamp,
{
    z_sample_t { keyexpr, payload, encoding, kind, timestamp }
}

} // verus!
