//! The fixed binary schema of untrusted network input.
//!
//! A datagram is `{nonce: 12 bytes, data: length-prefixed byte sequence}`,
//! little-endian, no padding, with a hard ceiling on the declared length.
//! The decrypted plaintext is a tagged union with a 32-bit little-endian
//! tag: tag 1 is a cursor movement with two 32-bit signed little-endian
//! coordinates; every other tag decodes successfully to `Unknown`, so future
//! command tags are not treated as errors. Trailing bytes after a decoded
//! value are tolerated.

use vstd::prelude::*;

use vstd::slice::slice_to_vec;

verus! {

/// Hard ceiling on the declared length of a datagram's data field:
/// comfortably above legitimate payload size, far below the transport MTU.
pub const MAX_DATA_LEN: usize = 1024;

/// Length of the nonce carried in every datagram.
pub const NONCE_LEN: usize = 12;

/// Why a decode was rejected. Every rejection is contained to the one
/// packet that caused it.
#[derive(Clone, Copy, Debug, PartialEq, Eq, Structural)]
pub enum DecodeError {
    /// The input ends before the decoded value does.
    Truncated,
    /// The declared length exceeds the configured ceiling.
    Oversized,
}

/// The unsigned value of four little-endian bytes at position `i`.
pub open spec fn le32_at(b: Seq<u8>, i: int) -> int
    recommends
        0 <= i,
        i + 4 <= b.len(),
{
    b[i] as int + 256 * (b[i + 1] as int) + 65536 * (b[i + 2] as int) + 16777216 * (b[i + 3] as int)
}

/// The unsigned value of eight little-endian bytes at position `i`.
pub open spec fn le64_at(b: Seq<u8>, i: int) -> int
    recommends
        0 <= i,
        i + 8 <= b.len(),
{
    le32_at(b, i) + 4294967296 * le32_at(b, i + 4)
}

/// The two's-complement signed value of four little-endian bytes at
/// position `i`.
pub open spec fn i32_at(b: Seq<u8>, i: int) -> int
    recommends
        0 <= i,
        i + 4 <= b.len(),
{
    if le32_at(b, i) < 2147483648 {
        le32_at(b, i)
    } else {
        le32_at(b, i) - 4294967296
    }
}

/// An encrypted datagram after framing: the cipher nonce and the
/// ciphertext.
#[derive(Debug)]
pub struct Packet {
    /// The per-message cipher nonce, exactly `NONCE_LEN` bytes.
    pub nonce: Vec<u8>,
    /// The authenticated ciphertext.
    pub data: Vec<u8>,
}

impl View for Packet {
    type V = (Seq<u8>, Seq<u8>);

    open spec fn view(&self) -> (Seq<u8>, Seq<u8>) {
        (self.nonce@, self.data@)
    }
}

/// A decoded plaintext command.
#[derive(Clone, Copy, Debug, PartialEq, Eq, Structural)]
pub enum Payload {
    /// The tag was not recognized; decode succeeded and the command is
    /// ignored.
    Unknown,
    /// A relative cursor movement.
    Move(i32, i32),
}

impl View for Payload {
    type V = Payload;

    open spec fn view(&self) -> Payload {
        *self
    }
}

/// The decode of a datagram: rejected when shorter than the minimum frame
/// size, when the declared length exceeds the ceiling, or when the declared
/// length overruns the input; otherwise the nonce and exactly the declared
/// number of data bytes.
pub open spec fn spec_decode_packet(b: Seq<u8>) -> Result<(Seq<u8>, Seq<u8>), DecodeError> {
    if b.len() < 20 {
        Err(DecodeError::Truncated)
    } else if le64_at(b, 12) > MAX_DATA_LEN as int {
        Err(DecodeError::Oversized)
    } else if 20 + le64_at(b, 12) > b.len() {
        Err(DecodeError::Truncated)
    } else {
        Ok((b.subrange(0, 12), b.subrange(20, 20 + le64_at(b, 12))))
    }
}

/// The decode of a plaintext command: a 32-bit tag, then the fields of the
/// recognized variant; an unrecognized tag is `Unknown`, not an error.
pub open spec fn spec_decode_payload(b: Seq<u8>) -> Result<Payload, DecodeError> {
    if b.len() < 4 {
        Err(DecodeError::Truncated)
    } else if le32_at(b, 0) == 1 {
        if b.len() < 12 {
            Err(DecodeError::Truncated)
        } else {
            Ok(Payload::Move(i32_at(b, 4) as i32, i32_at(b, 8) as i32))
        }
    } else {
        Ok(Payload::Unknown)
    }
}

/// A value with a fixed binary decode from a byte slice.
pub trait Decode: Sized + View {
    /// The decode at spec level: the decoded view, or the exact rejection.
    spec fn spec_decode(data: Seq<u8>) -> Result<Self::V, DecodeError>;

    /// Decodes one value from the given bytes; trailing bytes are
    /// tolerated.
    fn from_slice(data: &[u8]) -> (r: Result<Self, DecodeError>)
        ensures
            (r matches Ok(v) ==> Self::spec_decode(data@) matches Ok(m) && v@ == m),
            (r matches Err(e) ==> Self::spec_decode(data@) matches Err(m) && e == m),
    ;
}

/// Reads the two's-complement signed value of four little-endian bytes.
fn read_i32(data: &[u8], off: usize) -> (r: i32)
    requires
        off + 4 <= data@.len(),
    ensures
        r as int == i32_at(data@, off as int),
{
    let v: u64 = data[off] as u64 + 256 * (data[off + 1] as u64) + 65536 * (data[off + 2] as u64)
        + 16777216 * (data[off + 3] as u64);
    if v < 2147483648 {
        v as i32
    } else {
        let mag: u64 = 4294967296 - v;
        if mag == 2147483648 {
            -2147483647i32 - 1
        } else {
            -(mag as i32)
        }
    }
}

impl Decode for Packet {
    open spec fn spec_decode(data: Seq<u8>) -> Result<(Seq<u8>, Seq<u8>), DecodeError> {
        spec_decode_packet(data)
    }

    fn from_slice(data: &[u8]) -> (r: Result<Packet, DecodeError>) {
        if data.len() < 20 {
            return Err(DecodeError::Truncated);
        }
        let declared: u64 = data[12] as u64 + 256 * (data[13] as u64) + 65536 * (data[14] as u64)
            + 16777216 * (data[15] as u64) + 4294967296 * (data[16] as u64) + 1099511627776 * (
        data[17] as u64) + 281474976710656 * (data[18] as u64) + 72057594037927936 * (
        data[19] as u64);
        proof {
            assert(declared as int == le64_at(data@, 12));
        }
        if declared > 1024 {
            return Err(DecodeError::Oversized);
        }
        let len = declared as usize;
        if data.len() - 20 < len {
            return Err(DecodeError::Truncated);
        }
        let nonce: Vec<u8> = slice_to_vec(&data[0..12]);
        let body: Vec<u8> = slice_to_vec(&data[20..20 + len]);
        Ok(Packet { nonce, data: body })
    }
}

impl Decode for Payload {
    open spec fn spec_decode(data: Seq<u8>) -> Result<Payload, DecodeError> {
        spec_decode_payload(data)
    }

    fn from_slice(data: &[u8]) -> (r: Result<Payload, DecodeError>) {
        if data.len() < 4 {
            return Err(DecodeError::Truncated);
        }
        let tag: u64 = data[0] as u64 + 256 * (data[1] as u64) + 65536 * (data[2] as u64)
            + 16777216 * (data[3] as u64);
        proof {
            assert(tag as int == le32_at(data@, 0));
        }
        if tag == 1 {
            if data.len() < 12 {
                return Err(DecodeError::Truncated);
            }
            let x = read_i32(data, 4);
            let y = read_i32(data, 8);
            Ok(Payload::Move(x, y))
        } else {
            Ok(Payload::Unknown)
        }
    }
}

} // verus!
