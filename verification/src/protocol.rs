//! Wire header of the ingestion protocol: a fixed eight-byte prefix carrying
//! a two-byte magic, a frame-type byte, a flags byte, and a big-endian
//! payload length.

use vstd::prelude::*;

verus! {

/// Number of bytes in an encoded header.
pub const HEADER_SIZE: usize = 8;

/// First magic byte (`'P'`).
pub const MAGIC_0: u8 = 0x50;

/// Second magic byte (`'C'`).
pub const MAGIC_1: u8 = 0x43;

/// Parsed form of the eight-byte wire header.
pub struct Header {
    pub magic: [u8; 2],
    pub frame_type: u8,
    pub flags: u8,
    pub payload_length: u32,
}

/// Frame kinds carried in the `frame_type` byte.
#[derive(Clone, Copy, PartialEq, Eq, Structural, Debug)]
pub enum FrameType {
    P,
    I,
    B,
}

impl FrameType {
    /// The wire value of this frame kind.
    pub open spec fn spec_code(&self) -> u8 {
        match self {
            FrameType::P => 0x00,
            FrameType::I => 0x01,
            FrameType::B => 0x02,
        }
    }

    /// The wire value of this frame kind, as the `frame_type` byte carries
    /// it.
    pub fn code(&self) -> (c: u8)
        ensures
            c == self.spec_code(),
    {
        match self {
            FrameType::P => 0x00,
            FrameType::I => 0x01,
            FrameType::B => 0x02,
        }
    }
}

/// The big-endian 32-bit value encoded by four bytes.
pub open spec fn be_u32(b0: u8, b1: u8, b2: u8, b3: u8) -> u32 {
    (b0 * 0x1000000 + b1 * 0x10000 + b2 * 0x100 + b3) as u32
}

/// A byte sequence starts with a well-formed header: it is long enough and
/// carries the magic bytes.
pub open spec fn header_present(data: Seq<u8>) -> bool {
    data.len() >= HEADER_SIZE && data[0] == MAGIC_0 && data[1] == MAGIC_1
}

impl Header {
    /// Parses the leading header of `data`. Returns `None` exactly when the
    /// input is shorter than a header or does not start with the magic
    /// bytes; otherwise every field equals the corresponding input bytes,
    /// with the payload length read big-endian.
    pub fn parse(data: &[u8]) -> (r: Option<Header>)
        ensures
            r is Some <==> header_present(data@),
            r matches Some(h) ==> {
                &&& h.magic@ == seq![data@[0], data@[1]]
                &&& h.frame_type == data@[2]
                &&& h.flags == data@[3]
                &&& h.payload_length == be_u32(data@[4], data@[5], data@[6], data@[7])
            },
    {
        if data.len() < HEADER_SIZE {
            return None;
        }
        if data[0] != MAGIC_0 || data[1] != MAGIC_1 {
            return None;
        }
        let payload_length: u32 = (data[4] as u32) * 0x1000000 + (data[5] as u32) * 0x10000
            + (data[6] as u32) * 0x100 + (data[7] as u32);
        let magic: [u8; 2] = [data[0], data[1]];
        proof {
            assert(magic@ =~= seq![data@[0], data@[1]]);
        }
        Some(Header { magic, frame_type: data[2], flags: data[3], payload_length })
    }
}

} // verus!
