//! The transponder's wire protocol: one request byte out, a fixed buffer of
//! 256 bytes back, of which only the first few carry meaning.

use vstd::prelude::*;

verus! {

/// Length of every response buffer.
pub const RESPONSE_LEN: usize = 256;

/// Request code for the device clock.
pub const CODE_CLOCK: u8 = 0x33;

/// Request code for the firmware version.
pub const CODE_VERSION: u8 = 0x3D;

/// Request code for an instantaneous sample.
pub const CODE_SAMPLE: u8 = 0x0D;

/// The requests that the transponder answers.
#[derive(Clone, Copy, Debug, PartialEq, Eq, Structural)]
pub enum Request {
    Clock,
    Version,
    Sample,
}

/// One instantaneous reading of the transponder.
#[derive(Clone, Copy, Debug, PartialEq, Eq, Structural)]
pub struct RawSample {
    pub lap_id: u8,
    pub ms_val: u16,
    pub rssi: u8,
}

/// A response decoded according to the request that it answers.
#[derive(Clone, Copy, Debug, PartialEq, Eq, Structural)]
pub enum Decoded {
    Clock(u32),
    Version(u32),
    Sample(RawSample),
}

impl Request {
    /// The byte that asks for this request on the wire.
    pub open spec fn spec_code(self) -> u8 {
        match self {
            Request::Clock => 0x33u8,
            Request::Version => 0x3Du8,
            Request::Sample => 0x0Du8,
        }
    }

    /// The request that a byte asks for, if any.
    pub open spec fn spec_from_code(code: u8) -> Option<Request> {
        if code == 0x33 {
            Some(Request::Clock)
        } else if code == 0x3D {
            Some(Request::Version)
        } else if code == 0x0D {
            Some(Request::Sample)
        } else {
            None
        }
    }

    /// The byte that asks for this request on the wire.
    pub fn code(self) -> (c: u8)
        ensures
            c == self.spec_code(),
            Request::spec_from_code(c) == Some(self),
    {
        match self {
            Request::Clock => CODE_CLOCK,
            Request::Version => CODE_VERSION,
            Request::Sample => CODE_SAMPLE,
        }
    }

    /// The request that a byte asks for; `None` for a byte that is no
    /// request code.
    pub fn from_code(code: u8) -> (r: Option<Request>)
        ensures
            r == Request::spec_from_code(code),
            r matches Some(q) ==> q.spec_code() == code,
            r is None <==> code != 0x33 && code != 0x3D && code != 0x0D,
    {
        if code == CODE_CLOCK {
            Some(Request::Clock)
        } else if code == CODE_VERSION {
            Some(Request::Version)
        } else if code == CODE_SAMPLE {
            Some(Request::Sample)
        } else {
            None
        }
    }
}

/// The device clock that a response carries: its first four bytes, most
/// significant first.
pub open spec fn clock_of(buf: Seq<u8>) -> int {
    buf[0] as int * 0x100_0000 + buf[1] as int * 0x1_0000 + buf[2] as int * 0x100 + buf[3] as int
}

/// The firmware version that a response carries: its second byte.
pub open spec fn version_of(buf: Seq<u8>) -> int {
    buf[1] as int
}

/// The sample that a response carries: the lap in the first byte, a 16-bit
/// millisecond value in the next two, most significant first, and the signal
/// strength in the fourth.
pub open spec fn sample_of(buf: Seq<u8>) -> RawSample {
    RawSample {
        lap_id: buf[0],
        ms_val: (buf[1] as int * 256 + buf[2] as int) as u16,
        rssi: buf[3],
    }
}

/// What a response means as the answer to the request byte `code`. It is a
/// function of the code and the buffer's contents and of nothing else.
pub open spec fn decoded_as(code: u8, buf: Seq<u8>) -> Option<Decoded> {
    match Request::spec_from_code(code) {
        Some(Request::Clock) => Some(Decoded::Clock(clock_of(buf) as u32)),
        Some(Request::Version) => Some(Decoded::Version(version_of(buf) as u32)),
        Some(Request::Sample) => Some(Decoded::Sample(sample_of(buf))),
        None => None,
    }
}

/// Reads the device clock out of a response.
pub fn convert_bytes_to_millis(bytes: [u8; 256]) -> (millis: u32)
    ensures
        millis == clock_of(bytes@),
{
    let b0: u32 = bytes[0] as u32;
    let b1: u32 = bytes[1] as u32;
    let b2: u32 = bytes[2] as u32;
    let b3: u32 = bytes[3] as u32;
    assert(b0 << 24 == b0 * 0x100_0000 && b1 << 16 == b1 * 0x1_0000 && b2 << 8 == b2 * 0x100)
        by (bit_vector)
        requires
            b0 < 256 && b1 < 256 && b2 < 256,
    ;
    let mut millis: u32 = b0 << 24;
    millis += b1 << 16;
    millis += b2 << 8;
    millis += b3;
    millis
}

/// Reads the firmware version out of a response.
pub fn decode_version(bytes: &[u8; 256]) -> (version: u32)
    ensures
        version == version_of(bytes@),
{
    bytes[1] as u32
}

/// Reads a sample out of a response.
pub fn decode_sample(bytes: &[u8; 256]) -> (sample: RawSample)
    ensures
        sample == sample_of(bytes@),
        sample.lap_id == bytes@[0],
        sample.ms_val == bytes@[1] as int * 256 + bytes@[2] as int,
        sample.rssi == bytes@[3],
{
    RawSample {
        lap_id: bytes[0],
        ms_val: bytes[1] as u16 * 256 + bytes[2] as u16,
        rssi: bytes[3],
    }
}

/// Decodes a response as the answer to the request byte `code`. A byte that
/// is no request code has no decoding.
pub fn decode(code: u8, bytes: &[u8; 256]) -> (d: Option<Decoded>)
    ensures
        d == decoded_as(code, bytes@),
        d is Some <==> Request::spec_from_code(code) is Some,
{
    match Request::from_code(code) {
        Some(Request::Clock) => Some(Decoded::Clock(convert_bytes_to_millis(*bytes))),
        Some(Request::Version) => Some(Decoded::Version(decode_version(bytes))),
        Some(Request::Sample) => Some(Decoded::Sample(decode_sample(bytes))),
        None => None,
    }
}

/// Only the first four bytes of a response matter: two buffers that agree
/// on them decode alike under every request code.
pub proof fn lemma_decoding_reads_four_bytes(code: u8, a: Seq<u8>, b: Seq<u8>)
    requires
        a.len() == 256,
        b.len() == 256,
        a[0] == b[0],
        a[1] == b[1],
        a[2] == b[2],
        a[3] == b[3],
    ensures
        decoded_as(code, a) == decoded_as(code, b),
{
}

} // verus!
