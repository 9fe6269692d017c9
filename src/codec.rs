//! Framing of packets on the byte stream.
//!
//! A frame is the four bytes `moon`, the packet kind as a signed 32-bit
//! integer, the payload length as an unsigned 64-bit integer, and then the
//! payload itself. Both integers are big-endian.

use vstd::prelude::*;

verus! {

/// Length of a frame header: magic, packet kind and payload length.
pub const HEADER_LEN: usize = 16;

/// Why a byte stream could not be read as a frame. Both are fatal: the
/// stream cannot be trusted past them.
#[derive(Clone, Copy, Debug, PartialEq, Eq, Structural)]
pub enum FrameError {
    /// The first four bytes are not `moon`.
    BadMagic,
    /// The stream ends before the header or the payload does.
    Truncated,
}

/// The header of a frame: the raw packet kind and the payload length.
#[derive(Clone, Copy, Debug, PartialEq, Eq, Structural)]
pub struct FrameHeader {
    pub packet_type: i32,
    pub length: u64,
}

/// One frame: the raw packet kind and the payload bytes.
#[derive(Clone, Debug, PartialEq, Eq)]
pub struct Frame {
    pub packet_type: i32,
    pub payload: Vec<u8>,
}

/// The ASCII bytes of `moon`.
pub open spec fn magic() -> Seq<u8> {
    seq![0x6du8, 0x6fu8, 0x6fu8, 0x6eu8]
}

/// Big-endian bytes of a 32-bit value.
pub open spec fn u32_be(v: u32) -> Seq<u8> {
    seq![(v >> 24u32) as u8, (v >> 16u32) as u8, (v >> 8u32) as u8, v as u8]
}

/// Big-endian bytes of a 64-bit value.
pub open spec fn u64_be(v: u64) -> Seq<u8> {
    seq![
        (v >> 56u64) as u8,
        (v >> 48u64) as u8,
        (v >> 40u64) as u8,
        (v >> 32u64) as u8,
        (v >> 24u64) as u8,
        (v >> 16u64) as u8,
        (v >> 8u64) as u8,
        v as u8,
    ]
}

/// The 32-bit value of four big-endian bytes.
pub open spec fn u32_of_be(s: Seq<u8>) -> u32 {
    (s[0] as u32) << 24u32 | (s[1] as u32) << 16u32 | (s[2] as u32) << 8u32 | (s[3] as u32)
}

/// The 64-bit value of eight big-endian bytes.
pub open spec fn u64_of_be(s: Seq<u8>) -> u64 {
    (s[0] as u64) << 56u64 | (s[1] as u64) << 48u64 | (s[2] as u64) << 40u64 | (s[3] as u64)
        << 32u64 | (s[4] as u64) << 24u64 | (s[5] as u64) << 16u64 | (s[6] as u64) << 8u64 | (
    s[7] as u64)
}

/// The header bytes of a frame of kind `packet_type` and `length` payload bytes.
pub open spec fn header_bytes(packet_type: i32, length: u64) -> Seq<u8> {
    magic() + u32_be(packet_type as u32) + u64_be(length)
}

/// The bytes of a frame of kind `packet_type` around `payload`.
pub open spec fn frame_bytes(packet_type: i32, payload: Seq<u8>) -> Seq<u8> {
    header_bytes(packet_type, payload.len() as u64) + payload
}

/// What a header reads as, from the first bytes of `b`.
pub open spec fn parse_header_spec(b: Seq<u8>) -> Result<FrameHeader, FrameError> {
    if b.len() < 4 {
        Err(FrameError::Truncated)
    } else if b.subrange(0, 4) != magic() {
        Err(FrameError::BadMagic)
    } else if b.len() < HEADER_LEN {
        Err(FrameError::Truncated)
    } else {
        Ok(
            FrameHeader {
                packet_type: u32_of_be(b.subrange(4, 8)) as i32,
                length: u64_of_be(b.subrange(8, 16)),
            },
        )
    }
}

/// What the first frame of `b` reads as: its kind and payload, or the error.
pub open spec fn parse_frame_spec(b: Seq<u8>) -> Result<(i32, Seq<u8>), FrameError> {
    match parse_header_spec(b) {
        Err(e) => Err(e),
        Ok(h) => if b.len() - HEADER_LEN < h.length {
            Err(FrameError::Truncated)
        } else {
            Ok((h.packet_type, b.subrange(HEADER_LEN as int, HEADER_LEN + h.length)))
        },
    }
}

proof fn lemma_u32_round_trip(v: u32)
    ensures
        u32_of_be(u32_be(v)) == v,
{
    let s = u32_be(v);
    assert(s[0] == (v >> 24u32) as u8 && s[1] == (v >> 16u32) as u8 && s[2] == (v >> 8u32) as u8
        && s[3] == v as u8);
    assert(((((v >> 24u32) as u8) as u32) << 24u32 | (((v >> 16u32) as u8) as u32) << 16u32 | (((v
        >> 8u32) as u8) as u32) << 8u32 | ((v as u8) as u32)) == v) by (bit_vector);
}

proof fn lemma_u64_round_trip(v: u64)
    ensures
        u64_of_be(u64_be(v)) == v,
{
    let s = u64_be(v);
    assert(s[0] == (v >> 56u64) as u8 && s[1] == (v >> 48u64) as u8 && s[2] == (v >> 40u64) as u8
        && s[3] == (v >> 32u64) as u8 && s[4] == (v >> 24u64) as u8 && s[5] == (v >> 16u64) as u8
        && s[6] == (v >> 8u64) as u8 && s[7] == v as u8);
    assert(((((v >> 56u64) as u8) as u64) << 56u64 | (((v >> 48u64) as u8) as u64) << 48u64 | (((v
        >> 40u64) as u8) as u64) << 40u64 | (((v >> 32u64) as u8) as u64) << 32u64 | (((v
        >> 24u64) as u8) as u64) << 24u64 | (((v >> 16u64) as u8) as u64) << 16u64 | (((v
        >> 8u64) as u8) as u64) << 8u64 | ((v as u8) as u64)) == v) by (bit_vector);
}

proof fn lemma_i32_round_trip(v: i32)
    ensures
        (v as u32) as i32 == v,
{
    assert(((v as u32) as i32) == v) by (bit_vector);
}

/// Decoding the bytes of an encoded frame, followed by anything, gives back
/// the packet kind and the payload.
pub proof fn lemma_frame_round_trip(packet_type: i32, payload: Seq<u8>, rest: Seq<u8>)
    requires
        payload.len() <= u64::MAX,
    ensures
        parse_frame_spec(frame_bytes(packet_type, payload) + rest) == Ok::<(i32, Seq<u8>), FrameError>((packet_type, payload)),
{
    let b = frame_bytes(packet_type, payload) + rest;
    let n = payload.len() as u64;
    lemma_u32_round_trip(packet_type as u32);
    lemma_u64_round_trip(n);
    lemma_i32_round_trip(packet_type);
    assert(b.subrange(0, 4) =~= magic());
    assert(b.subrange(4, 8) =~= u32_be(packet_type as u32));
    assert(b.subrange(8, 16) =~= u64_be(n));
    assert(b.subrange(HEADER_LEN as int, HEADER_LEN + n) =~= payload);
}

/// Bytes that do not start with `moon` are refused as a bad magic, whatever
/// follows them.
pub proof fn lemma_bad_magic_is_fatal(b: Seq<u8>)
    requires
        b.len() >= 4,
        b.subrange(0, 4) != magic(),
    ensures
        parse_frame_spec(b) == Err::<(i32, Seq<u8>), FrameError>(FrameError::BadMagic),
{
}

/// A well-formed header that announces `n` payload bytes, followed by fewer
/// than `n`, is refused as truncated.
pub proof fn lemma_short_payload_is_truncated(packet_type: i32, n: u64, payload: Seq<u8>)
    requires
        payload.len() < n,
    ensures
        parse_frame_spec(header_bytes(packet_type, n) + payload) == Err::<(i32, Seq<u8>), FrameError>(FrameError::Truncated),
{
    let b = header_bytes(packet_type, n) + payload;
    lemma_u64_round_trip(n);
    assert(b.subrange(0, 4) =~= magic());
    assert(b.subrange(8, 16) =~= u64_be(n));
}

fn push_u32_be(out: &mut Vec<u8>, v: u32)
    ensures
        final(out)@ == old(out)@ + u32_be(v),
{
    out.push((v >> 24u32) as u8);
    out.push((v >> 16u32) as u8);
    out.push((v >> 8u32) as u8);
    out.push(v as u8);
    assert(final(out)@ =~= old(out)@ + u32_be(v));
}

fn push_u64_be(out: &mut Vec<u8>, v: u64)
    ensures
        final(out)@ == old(out)@ + u64_be(v),
{
    out.push((v >> 56u64) as u8);
    out.push((v >> 48u64) as u8);
    out.push((v >> 40u64) as u8);
    out.push((v >> 32u64) as u8);
    out.push((v >> 24u64) as u8);
    out.push((v >> 16u64) as u8);
    out.push((v >> 8u64) as u8);
    out.push(v as u8);
    assert(final(out)@ =~= old(out)@ + u64_be(v));
}

/// The bytes of one frame of kind `packet_type` around `payload`, ready for a
/// single write.
pub fn encode_frame(packet_type: i32, payload: &[u8]) -> (r: Vec<u8>)
    ensures
        r@ == frame_bytes(packet_type, payload@),
{
    let mut out: Vec<u8> = Vec::new();
    out.push(0x6du8);
    out.push(0x6fu8);
    out.push(0x6fu8);
    out.push(0x6eu8);
    assert(out@ =~= magic());
    push_u32_be(&mut out, #[verifier::truncate] (packet_type as u32));
    push_u64_be(&mut out, payload.len() as u64);
    let ghost head = out@;
    let mut i: usize = 0;
    while i < payload.len()
        invariant
            i <= payload.len(),
            head == header_bytes(packet_type, payload@.len() as u64),
            out@ == head + payload@.subrange(0, i as int),
        decreases payload.len() - i,
    {
        out.push(payload[i]);
        i = i + 1;
        assert(out@ =~= head + payload@.subrange(0, i as int));
    }
    assert(payload@.subrange(0, i as int) =~= payload@);
    out
}

/// Reads a frame header from the first bytes of `bytes`.
pub fn parse_header(bytes: &[u8]) -> (r: Result<FrameHeader, FrameError>)
    ensures
        r == parse_header_spec(bytes@),
{
    if bytes.len() < 4 {
        return Err(FrameError::Truncated);
    }
    if !(bytes[0] == 0x6du8 && bytes[1] == 0x6fu8 && bytes[2] == 0x6fu8 && bytes[3] == 0x6eu8) {
        assert(bytes@.subrange(0, 4) != magic()) by {
            if bytes@.subrange(0, 4) == magic() {
                assert(bytes@[0] == bytes@.subrange(0, 4)[0]);
                assert(bytes@[1] == bytes@.subrange(0, 4)[1]);
                assert(bytes@[2] == bytes@.subrange(0, 4)[2]);
                assert(bytes@[3] == bytes@.subrange(0, 4)[3]);
            }
        }
        return Err(FrameError::BadMagic);
    }
    assert(bytes@.subrange(0, 4) =~= magic());
    if bytes.len() < HEADER_LEN {
        return Err(FrameError::Truncated);
    }
    let t: u32 = (bytes[4] as u32) << 24u32 | (bytes[5] as u32) << 16u32 | (bytes[6] as u32) << 8u32
        | (bytes[7] as u32);
    let n: u64 = (bytes[8] as u64) << 56u64 | (bytes[9] as u64) << 48u64 | (bytes[10] as u64)
        << 40u64 | (bytes[11] as u64) << 32u64 | (bytes[12] as u64) << 24u64 | (bytes[13] as u64)
        << 16u64 | (bytes[14] as u64) << 8u64 | (bytes[15] as u64);
    let ghost ts = bytes@.subrange(4, 8);
    let ghost ns = bytes@.subrange(8, 16);
    assert(ts[0] == bytes@[4] && ts[1] == bytes@[5] && ts[2] == bytes@[6] && ts[3] == bytes@[7]);
    assert(ns[0] == bytes@[8] && ns[1] == bytes@[9] && ns[2] == bytes@[10] && ns[3] == bytes@[11]
        && ns[4] == bytes@[12] && ns[5] == bytes@[13] && ns[6] == bytes@[14] && ns[7] == bytes@[15]);
    Ok(FrameHeader { packet_type: #[verifier::truncate] (t as i32), length: n })
}

/// Reads the first frame of `bytes`, and how many bytes it spans.
pub fn decode_frame(bytes: &[u8]) -> (r: Result<(Frame, usize), FrameError>)
    ensures
        match r {
            Ok((f, n)) => parse_frame_spec(bytes@) == Ok::<(i32, Seq<u8>), FrameError>((f.packet_type, f.payload@))
                && n == HEADER_LEN + f.payload@.len(),
            Err(e) => parse_frame_spec(bytes@) == Err::<(i32, Seq<u8>), FrameError>(e),
        },
{
    let header = match parse_header(bytes) {
        Ok(h) => h,
        Err(e) => {
            return Err(e);
        },
    };
    let avail = bytes.len() - HEADER_LEN;
    if (avail as u64) < header.length {
        return Err(FrameError::Truncated);
    }
    let len = header.length as usize;
    assert(bytes@.len() <= usize::MAX);
    let mut payload: Vec<u8> = Vec::with_capacity(len);
    let mut i: usize = 0;
    while i < len
        invariant
            i <= len,
            len <= avail,
            avail == bytes@.len() - HEADER_LEN,
            bytes@.len() <= usize::MAX,
            payload@ == bytes@.subrange(HEADER_LEN as int, HEADER_LEN + i),
        decreases len - i,
    {
        payload.push(bytes[HEADER_LEN + i]);
        i = i + 1;
        assert(payload@ =~= bytes@.subrange(HEADER_LEN as int, HEADER_LEN + i));
    }
    Ok((Frame { packet_type: header.packet_type, payload }, HEADER_LEN + len))
}

} // verus!
