//! Length-delimited stream codec scaffolding with the wire format the
//! transport uses for binary messages.
//!
//! Each frame is `[total_len: u32 big-endian][flags: u8][payload]`, where
//! `total_len` counts the flags byte plus the payload, and the flags byte is
//! 0 for a raw payload and 1 for a compressed one. Serializing and
//! compressing the payload itself is the transport's business; the framing
//! and its bounds checks are the codec's own logic.

use core::marker::PhantomData;
use vstd::prelude::*;

use crate::adaptive_buffer::AdaptiveBuffer;
use crate::adaptive_buffer::BufferParams;

verus! {

/// Buffer parameters tuned for codec use: 2 KiB minimum, shrink beyond
/// three times the seen size, checked every 64 messages.
#[derive(Debug, Clone, Copy)]
pub struct CodecBufferParams;

impl BufferParams for CodecBufferParams {
    open spec fn spec_min_capacity() -> usize {
        2048
    }

    open spec fn spec_shrink_factor() -> usize {
        3
    }

    open spec fn spec_shrink_check_interval() -> usize {
        64
    }

    fn min_capacity() -> usize {
        2048
    }

    fn shrink_factor() -> usize {
        3
    }

    fn shrink_check_interval() -> usize {
        64
    }
}

/// The kinds of message stream the transport opens.
#[derive(Debug, Clone, Copy, PartialEq, Eq, Structural)]
pub enum StreamType {
    /// A chat message stream.
    Chat,
}

/// An encoder of length-delimited frames with reusable adaptive buffers for
/// serialization and compression.
#[derive(Debug)]
pub struct CompressedCborEncoder<T, BP: BufferParams = CodecBufferParams> {
    pub cbor_buf: AdaptiveBuffer<u8, BP>,
    pub compress_buf: AdaptiveBuffer<u8, BP>,
    pub message_type: PhantomData<T>,
}

impl<T, BP: BufferParams> CompressedCborEncoder<T, BP> {
    /// Creates an encoder with empty buffers at the minimum capacity.
    pub fn new() -> (r: CompressedCborEncoder<T, BP>)
        ensures
            r.cbor_buf.wf(),
            r.compress_buf.wf(),
            r.cbor_buf.inner@.len() == 0,
            r.compress_buf.inner@.len() == 0,
    {
        CompressedCborEncoder {
            cbor_buf: AdaptiveBuffer::new(),
            compress_buf: AdaptiveBuffer::new(),
            message_type: PhantomData,
        }
    }
}

/// A decoder of length-delimited frames, bounded by a maximum frame size
/// against memory-exhaustion attacks.
#[derive(Debug)]
pub struct CompressedCborDecoder<T, const MAX_DECODE_FRAME: usize> {
    pub message_type: PhantomData<T>,
}

impl<T, const MAX_DECODE_FRAME: usize> CompressedCborDecoder<T, MAX_DECODE_FRAME> {
    /// Creates a decoder.
    pub fn new() -> (r: CompressedCborDecoder<T, MAX_DECODE_FRAME>) {
        CompressedCborDecoder { message_type: PhantomData }
    }
}

/// The four big-endian bytes of a 32-bit length.
pub open spec fn spec_be32(n: u32) -> Seq<u8> {
    seq![
        ((n / 16777216) % 256) as u8,
        ((n / 65536) % 256) as u8,
        ((n / 256) % 256) as u8,
        (n % 256) as u8,
    ]
}

/// The wire form of one frame: the length prefix counting the flags byte and
/// the payload, the flags byte, then the payload.
pub open spec fn spec_frame(flags: u8, payload: Seq<u8>) -> Seq<u8> {
    spec_be32((payload.len() + 1) as u32) + seq![flags] + payload
}

/// What one decode step yields.
#[derive(Debug, Clone)]
pub enum FrameDecode {
    /// Not enough bytes buffered yet; wait for more input.
    NeedMore,
    /// The frame claims more than the decoder's bound, or less than the
    /// mandatory flags byte.
    BadLength,
    /// A complete frame: its flags byte, payload, and the number of bytes it
    /// occupied on the wire.
    Frame { flags: u8, payload: Vec<u8>, consumed: usize },
}

/// Encodes one frame: the four-byte big-endian length of flags plus payload,
/// the flags byte, then the payload.
pub fn encode_frame(flags: u8, payload: &Vec<u8>) -> (r: Vec<u8>)
    requires
        payload@.len() + 1 <= u32::MAX,
    ensures
        r@ == spec_frame(flags, payload@),
        r@.len() == payload@.len() + 5,
{
    let total_len: u32 = (payload.len() as u32) + 1;
    let mut out: Vec<u8> = Vec::new();
    out.push(((total_len / 16777216) % 256) as u8);
    out.push(((total_len / 65536) % 256) as u8);
    out.push(((total_len / 256) % 256) as u8);
    out.push((total_len % 256) as u8);
    out.push(flags);
    let ghost header = out@;
    proof {
        assert(header =~= spec_be32(total_len) + seq![flags]);
    }
    let mut i: usize = 0;
    while i < payload.len()
        invariant
            payload@.len() + 1 <= u32::MAX,
            header == spec_be32((payload@.len() + 1) as u32) + seq![flags],
            i <= payload@.len(),
            out@ == header + payload@.subrange(0, i as int),
        decreases payload@.len() - i,
    {
        out.push(payload[i]);
        proof {
            assert(out@ =~= header + payload@.subrange(0, i + 1));
        }
        i = i + 1;
    }
    proof {
        assert(payload@.subrange(0, payload@.len() as int) =~= payload@);
        assert(out@ =~= spec_frame(flags, payload@));
    }
    out
}

/// The 32-bit length a buffer's first four bytes spell in big-endian order.
pub open spec fn spec_read_be32(buf: Seq<u8>) -> int {
    buf[0] * 16777216 + buf[1] * 65536 + buf[2] * 256 + buf[3]
}

/// Decodes one frame from the front of a buffer: reports whether more input
/// is needed, rejects a length over the bound or under the mandatory flags
/// byte, and otherwise hands out the flags, the payload, and how many bytes
/// the frame occupied.
pub fn decode_frame(buf: &Vec<u8>, max_frame: usize) -> (r: FrameDecode)
    ensures
        ({
            let total = spec_read_be32(buf@);
            match r {
                FrameDecode::NeedMore => buf@.len() < 4 || (total <= max_frame && 1 <= total
                    && buf@.len() < 4 + total),
                FrameDecode::BadLength => buf@.len() >= 4 && (total > max_frame || total < 1),
                FrameDecode::Frame { flags, payload, consumed } => {
                    &&& buf@.len() >= 4
                    &&& 1 <= total <= max_frame
                    &&& buf@.len() >= 4 + total
                    &&& flags == buf@[4]
                    &&& payload@ == buf@.subrange(5, 4 + total)
                    &&& consumed == 4 + total
                },
            }
        }),
{
    if buf.len() < 4 {
        return FrameDecode::NeedMore;
    }
    let b0 = buf[0] as u64;
    let b1 = buf[1] as u64;
    let b2 = buf[2] as u64;
    let b3 = buf[3] as u64;
    let total: u64 = b0 * 16777216 + b1 * 65536 + b2 * 256 + b3;
    if total > max_frame as u64 {
        return FrameDecode::BadLength;
    }
    if total < 1 {
        return FrameDecode::BadLength;
    }
    if (buf.len() as u64) < 4 + total {
        return FrameDecode::NeedMore;
    }
    let total: usize = total as usize;
    let end: usize = 4 + total;
    let flags = buf[4];
    let mut payload: Vec<u8> = Vec::new();
    let mut i: usize = 5;
    while i < end
        invariant
            end == 4 + total,
            buf@.len() >= end,
            5 <= i <= end,
            payload@ == buf@.subrange(5, i as int),
        decreases end - i,
    {
        payload.push(buf[i]);
        proof {
            assert(payload@ =~= buf@.subrange(5, i + 1));
        }
        i = i + 1;
    }
    proof {
        assert(payload@ =~= buf@.subrange(5, 4 + total));
    }
    FrameDecode::Frame { flags, payload, consumed: 4 + total }
}

/// Law: framing round-trips. Decoding an encoded frame, under any bound
/// large enough for it, yields the flags and payload that went in and consumes the
/// whole frame.
pub proof fn lemma_frame_round_trip(flags: u8, payload: Seq<u8>)
    requires
        payload.len() + 1 <= u32::MAX,
    ensures
        spec_read_be32(spec_frame(flags, payload)) == payload.len() + 1,
        spec_frame(flags, payload)[4] == flags,
        spec_frame(flags, payload).subrange(5, spec_frame(flags, payload).len() as int) == payload,
{
    let n = (payload.len() + 1) as u32;
    let f = spec_frame(flags, payload);
    assert(f[0] == ((n / 16777216) % 256) as u8);
    assert(f[1] == ((n / 65536) % 256) as u8);
    assert(f[2] == ((n / 256) % 256) as u8);
    assert(f[3] == (n % 256) as u8);
    assert(((n / 16777216) % 256) * 16777216 + ((n / 65536) % 256) * 65536 + ((n / 256) % 256)
        * 256 + (n % 256) == n) by (nonlinear_arith);
    assert(f.subrange(5, f.len() as int) =~= payload);
}

} // verus!
