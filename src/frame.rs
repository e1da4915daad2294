//! Frames on the wire: a little-endian `u16` total length (header included),
//! a little-endian `u16` wire opcode, then the body.
use vstd::prelude::*;
use crate::opcode::{Opcode, OpcodeTable};

verus! {

/// Bytes in a frame header.
pub const HEADER_LEN: usize = 4;

/// Largest total length that a header can hold.
pub const MAX_FRAME_LEN: usize = 65535;

/// Little-endian bytes of a `u16`.
pub open spec fn le_u16_bytes(x: u16) -> Seq<u8> {
    seq![(x & 0xff) as u8, (x >> 8u16) as u8]
}

/// The `u16` of two little-endian bytes.
pub open spec fn le_u16_value(lo: u8, hi: u8) -> u16 {
    ((hi as u16) << 8u16) | (lo as u16)
}

/// The four header bytes of a frame.
pub open spec fn header_bytes(len: u16, op: u16) -> Seq<u8> {
    le_u16_bytes(len) + le_u16_bytes(op)
}

#[derive(Clone, Copy, Debug, PartialEq, Eq, Structural)]
pub enum FrameError {
    /// The header's length is shorter than the header itself.
    MalformedPacket,
    /// The body does not fit in a frame.
    OversizePacket,
    /// The message has no wire value in this client build.
    UnknownReverseOpcode,
}

/// The header of a frame of total length `len` carrying `op`.
pub fn encode_header(len: u16, op: u16) -> (r: [u8; 4])
    ensures
        r@ == header_bytes(len, op),
{
    let r = [(len & 0xff) as u8, (len >> 8u16) as u8, (op & 0xff) as u8, (op >> 8u16) as u8];
    proof {
        assert(r@ =~= header_bytes(len, op));
    }
    r
}

/// The total length and the wire opcode of a header.
pub fn decode_header(h: &[u8]) -> (r: (u16, u16))
    requires
        h@.len() == HEADER_LEN,
    ensures
        r == (le_u16_value(h@[0], h@[1]), le_u16_value(h@[2], h@[3])),
{
    let len = ((h[1] as u16) << 8u16) | (h[0] as u16);
    let op = ((h[3] as u16) << 8u16) | (h[2] as u16);
    (len, op)
}

/// Decoding an encoded header gives back its length and opcode.
pub proof fn lemma_header_round_trip(len: u16, op: u16)
    ensures
        ({
            let b = header_bytes(len, op);
            (le_u16_value(b[0], b[1]), le_u16_value(b[2], b[3])) == (len, op)
        }),
{
    assert(le_u16_value((len & 0xff) as u8, (len >> 8u16) as u8) == len) by (bit_vector);
    assert(le_u16_value((op & 0xff) as u8, (op >> 8u16) as u8) == op) by (bit_vector);
}

/// The length of the body that follows a header, or `MalformedPacket` when
/// the header's length is shorter than the header.
pub fn body_len(h: &[u8]) -> (r: Result<usize, FrameError>)
    requires
        h@.len() == HEADER_LEN,
    ensures
        le_u16_value(h@[0], h@[1]) < HEADER_LEN ==> r == Err::<usize, FrameError>(
            FrameError::MalformedPacket,
        ),
        le_u16_value(h@[0], h@[1]) >= HEADER_LEN ==> r == Ok::<usize, FrameError>(
            (le_u16_value(h@[0], h@[1]) - HEADER_LEN) as usize,
        ),
{
    let (len, _) = decode_header(h);
    if (len as usize) < HEADER_LEN {
        Err(FrameError::MalformedPacket)
    } else {
        Ok(len as usize - HEADER_LEN)
    }
}

/// The frame that carries `data` as the body of `opcode`.
pub open spec fn framed(w: u16, data: Seq<u8>) -> Seq<u8> {
    header_bytes((data.len() + HEADER_LEN) as u16, w) + data
}

/// Frames an encoded body for sending. The message must have a wire value
/// in `table`, and the frame must fit its `u16` length.
pub fn frame_packet(table: &OpcodeTable, opcode: Opcode, data: Vec<u8>) -> (r: Result<
    Vec<u8>,
    FrameError,
>)
    requires
        table.wf(),
    ensures
        table.reverse_lookup(opcode) is None ==> r == Err::<Vec<u8>, FrameError>(
            FrameError::UnknownReverseOpcode,
        ),
        table.reverse_lookup(opcode) is Some && data@.len() + HEADER_LEN > MAX_FRAME_LEN ==> r
            == Err::<Vec<u8>, FrameError>(FrameError::OversizePacket),
        table.reverse_lookup(opcode) is Some && data@.len() + HEADER_LEN <= MAX_FRAME_LEN ==> (r
            matches Ok(f) && f@ == framed(table.reverse_lookup(opcode)->Some_0, data@)),
{
    match table.get_reverse(opcode) {
        None => Err(FrameError::UnknownReverseOpcode),
        Some(w) => {
            if data.len() > MAX_FRAME_LEN - HEADER_LEN {
                return Err(FrameError::OversizePacket);
            }
            let len = (data.len() + HEADER_LEN) as u16;
            let header = encode_header(len, w);
            let mut buffer: Vec<u8> = Vec::new();
            let mut i: usize = 0;
            while i < HEADER_LEN
                invariant
                    i <= HEADER_LEN,
                    buffer@ == header@.subrange(0, i as int),
                decreases HEADER_LEN - i,
            {
                buffer.push(header[i]);
                proof {
                    assert(buffer@ =~= header@.subrange(0, i + 1));
                }
                i = i + 1;
            }
            let mut j: usize = 0;
            while j < data.len()
                invariant
                    j <= data@.len(),
                    buffer@ == header@ + data@.subrange(0, j as int),
                decreases data@.len() - j,
            {
                buffer.push(data[j]);
                proof {
                    assert(buffer@ =~= header@ + data@.subrange(0, j + 1));
                }
                j = j + 1;
            }
            proof {
                assert(data@.subrange(0, data@.len() as int) =~= data@);
                assert(header@.subrange(0, 4) =~= header@);
            }
            Ok(buffer)
        },
    }
}

} // verus!
