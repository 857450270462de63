//! Big-endian integer encodings and the length-delimited frame layer.
//!
//! Every message travels as one frame: a 4-byte big-endian length prefix
//! followed by exactly that many payload bytes. Frames are self-delimiting;
//! a buffer that ends inside a frame yields no message.

use vstd::prelude::*;

verus! {

/// The two big-endian bytes of a 16-bit value.
pub open spec fn be16(v: u16) -> Seq<u8> {
    seq![(v / 0x100) as u8, (v % 0x100) as u8]
}

/// The 16-bit value two big-endian bytes denote.
pub open spec fn be16_val(s: Seq<u8>) -> u16
    recommends
        s.len() == 2,
{
    (s[0] * 0x100 + s[1]) as u16
}

/// The four big-endian bytes of a 32-bit value.
pub open spec fn be32(v: u32) -> Seq<u8> {
    seq![
        (v / 0x100_0000) as u8,
        ((v / 0x1_0000) % 0x100) as u8,
        ((v / 0x100) % 0x100) as u8,
        (v % 0x100) as u8,
    ]
}

/// The 32-bit value four big-endian bytes denote.
pub open spec fn be32_val(s: Seq<u8>) -> u32
    recommends
        s.len() == 4,
{
    (s[0] * 0x100_0000 + s[1] * 0x1_0000 + s[2] * 0x100 + s[3]) as u32
}

/// The eight big-endian bytes of a 64-bit value.
pub open spec fn be64(v: u64) -> Seq<u8> {
    seq![
        (v / 0x100_0000_0000_0000) as u8,
        ((v / 0x1_0000_0000_0000) % 0x100) as u8,
        ((v / 0x100_0000_0000) % 0x100) as u8,
        ((v / 0x1_0000_0000) % 0x100) as u8,
        ((v / 0x100_0000) % 0x100) as u8,
        ((v / 0x1_0000) % 0x100) as u8,
        ((v / 0x100) % 0x100) as u8,
        (v % 0x100) as u8,
    ]
}

/// The 64-bit value eight big-endian bytes denote.
pub open spec fn be64_val(s: Seq<u8>) -> u64
    recommends
        s.len() == 8,
{
    (s[0] * 0x100_0000_0000_0000 + s[1] * 0x1_0000_0000_0000 + s[2] * 0x100_0000_0000 + s[3]
        * 0x1_0000_0000 + s[4] * 0x100_0000 + s[5] * 0x1_0000 + s[6] * 0x100 + s[7]) as u64
}

/// Decoding inverts encoding for 16-bit values.
pub proof fn lemma_be16_round_trip(v: u16)
    ensures
        be16(v).len() == 2,
        be16_val(be16(v)) == v,
{
}

/// Decoding inverts encoding for 32-bit values.
pub proof fn lemma_be32_round_trip(v: u32)
    ensures
        be32(v).len() == 4,
        be32_val(be32(v)) == v,
{
    assert(v / 0x100_0000 * 0x100_0000 + (v / 0x1_0000 % 0x100) * 0x1_0000 + (v / 0x100 % 0x100)
        * 0x100 + v % 0x100 == v) by (bit_vector);
}

/// Decoding inverts encoding for 64-bit values.
pub proof fn lemma_be64_round_trip(v: u64)
    ensures
        be64(v).len() == 8,
        be64_val(be64(v)) == v,
{
    assert(v / 0x100_0000_0000_0000 * 0x100_0000_0000_0000 + (v / 0x1_0000_0000_0000 % 0x100)
        * 0x1_0000_0000_0000 + (v / 0x100_0000_0000 % 0x100) * 0x100_0000_0000 + (v
        / 0x1_0000_0000 % 0x100) * 0x1_0000_0000 + (v / 0x100_0000 % 0x100) * 0x100_0000 + (v
        / 0x1_0000 % 0x100) * 0x1_0000 + (v / 0x100 % 0x100) * 0x100 + v % 0x100 == v)
        by (bit_vector);
}

/// Encoding inverts decoding: two bytes are recovered from the 16-bit
/// value they denote.
pub proof fn lemma_be16_bytes(s: Seq<u8>)
    requires
        s.len() == 2,
    ensures
        be16(be16_val(s)) == s,
{
    let b0 = s[0];
    let b1 = s[1];
    assert(((b0 as u16) * 0x100 + (b1 as u16)) / 0x100 == b0 as u16 && ((b0 as u16) * 0x100 + (
    b1 as u16)) % 0x100 == b1 as u16) by (bit_vector);
    assert(be16(be16_val(s)) =~= s);
}

/// Encoding inverts decoding: four bytes are recovered from the 32-bit
/// value they denote.
pub proof fn lemma_be32_bytes(s: Seq<u8>)
    requires
        s.len() == 4,
    ensures
        be32(be32_val(s)) == s,
{
    let b0 = s[0];
    let b1 = s[1];
    let b2 = s[2];
    let b3 = s[3];
    assert(((b0 as u32) * 0x100_0000 + (b1 as u32) * 0x1_0000 + (b2 as u32) * 0x100 + (
    b3 as u32)) / 0x100_0000 == b0 as u32 && ((b0 as u32) * 0x100_0000 + (b1 as u32) * 0x1_0000 + (
    b2 as u32) * 0x100 + (b3 as u32)) / 0x1_0000 % 0x100 == b1 as u32 && ((b0 as u32) * 0x100_0000
        + (b1 as u32) * 0x1_0000 + (b2 as u32) * 0x100 + (b3 as u32)) / 0x100 % 0x100
        == b2 as u32 && ((b0 as u32) * 0x100_0000 + (b1 as u32) * 0x1_0000 + (b2 as u32) * 0x100 + (
    b3 as u32)) % 0x100 == b3 as u32) by (bit_vector);
    assert(be32(be32_val(s)) =~= s);
}

/// Encoding inverts decoding: eight bytes are recovered from the 64-bit
/// value they denote.
pub proof fn lemma_be64_bytes(s: Seq<u8>)
    requires
        s.len() == 8,
    ensures
        be64(be64_val(s)) == s,
{
    let b0 = s[0];
    let b1 = s[1];
    let b2 = s[2];
    let b3 = s[3];
    let b4 = s[4];
    let b5 = s[5];
    let b6 = s[6];
    let b7 = s[7];
    let hi = (b0 as u64) * 0x100_0000_0000_0000 + (b1 as u64) * 0x1_0000_0000_0000 + (b2 as u64)
        * 0x100_0000_0000 + (b3 as u64) * 0x1_0000_0000;
    let lo = (b4 as u64) * 0x100_0000 + (b5 as u64) * 0x1_0000 + (b6 as u64) * 0x100 + (b7 as u64);
    assert(be64_val(s) == (hi + lo) as u64);
    let v = (hi + lo) as u64;
    assert(v == (b0 as u64) * 0x100_0000_0000_0000 + (b1 as u64) * 0x1_0000_0000_0000 + (b2 as u64)
        * 0x100_0000_0000 + (b3 as u64) * 0x1_0000_0000 + (b4 as u64) * 0x100_0000 + (b5 as u64)
        * 0x1_0000 + (b6 as u64) * 0x100 + (b7 as u64));
    assert(v / 0x100_0000_0000_0000 == b0 as u64 && v / 0x1_0000_0000_0000 % 0x100 == b1 as u64 && v
        / 0x100_0000_0000 % 0x100 == b2 as u64 && v / 0x1_0000_0000 % 0x100 == b3 as u64 && v
        / 0x100_0000 % 0x100 == b4 as u64 && v / 0x1_0000 % 0x100 == b5 as u64 && v / 0x100 % 0x100
        == b6 as u64 && v % 0x100 == b7 as u64) by (bit_vector)
        requires
            v == (b0 as u64) * 0x100_0000_0000_0000 + (b1 as u64) * 0x1_0000_0000_0000 + (b2 as u64)
                * 0x100_0000_0000 + (b3 as u64) * 0x1_0000_0000 + (b4 as u64) * 0x100_0000 + (
            b5 as u64) * 0x1_0000 + (b6 as u64) * 0x100 + (b7 as u64),
    ;
    assert(be64(be64_val(s)) =~= s);
}

/// Appends the two big-endian bytes of `v`.
pub fn push_be16(out: &mut Vec<u8>, v: u16)
    ensures
        final(out)@ == old(out)@ + be16(v),
{
    out.push((v / 0x100) as u8);
    out.push((v % 0x100) as u8);
    assert(final(out)@ =~= old(out)@ + be16(v));
}

/// Appends the four big-endian bytes of `v`.
pub fn push_be32(out: &mut Vec<u8>, v: u32)
    ensures
        final(out)@ == old(out)@ + be32(v),
{
    out.push((v / 0x100_0000) as u8);
    out.push(((v / 0x1_0000) % 0x100) as u8);
    out.push(((v / 0x100) % 0x100) as u8);
    out.push((v % 0x100) as u8);
    assert(final(out)@ =~= old(out)@ + be32(v));
}

/// Appends the eight big-endian bytes of `v`.
pub fn push_be64(out: &mut Vec<u8>, v: u64)
    ensures
        final(out)@ == old(out)@ + be64(v),
{
    out.push((v / 0x100_0000_0000_0000) as u8);
    out.push(((v / 0x1_0000_0000_0000) % 0x100) as u8);
    out.push(((v / 0x100_0000_0000) % 0x100) as u8);
    out.push(((v / 0x1_0000_0000) % 0x100) as u8);
    out.push(((v / 0x100_0000) % 0x100) as u8);
    out.push(((v / 0x1_0000) % 0x100) as u8);
    out.push(((v / 0x100) % 0x100) as u8);
    out.push((v % 0x100) as u8);
    assert(final(out)@ =~= old(out)@ + be64(v));
}

/// Appends every byte of `b`.
pub fn push_bytes(out: &mut Vec<u8>, b: &Vec<u8>)
    ensures
        final(out)@ == old(out)@ + b@,
{
    let mut i: usize = 0;
    while i < b.len()
        invariant
            i <= b@.len(),
            out@ == old(out)@ + b@.subrange(0, i as int),
        decreases b@.len() - i,
    {
        out.push(b[i]);
        i = i + 1;
        assert(out@ =~= old(out)@ + b@.subrange(0, i as int));
    }
    assert(final(out)@ =~= old(out)@ + b@);
}

/// Reads the 16-bit value whose big-endian bytes sit at `i`.
pub fn read_be16(b: &Vec<u8>, i: usize) -> (r: u16)
    requires
        i + 2 <= b.len(),
    ensures
        r == be16_val(b@.subrange(i as int, i + 2)),
{
    b[i] as u16 * 0x100 + b[i + 1] as u16
}

/// Reads the 32-bit value whose big-endian bytes sit at `i`.
pub fn read_be32(b: &Vec<u8>, i: usize) -> (r: u32)
    requires
        i + 4 <= b.len(),
    ensures
        r == be32_val(b@.subrange(i as int, i + 4)),
{
    b[i] as u32 * 0x100_0000 + b[i + 1] as u32 * 0x1_0000 + b[i + 2] as u32 * 0x100 + b[i
        + 3] as u32
}

/// Reads the 64-bit value whose big-endian bytes sit at `i`.
pub fn read_be64(b: &Vec<u8>, i: usize) -> (r: u64)
    requires
        i + 8 <= b.len(),
    ensures
        r == be64_val(b@.subrange(i as int, i + 8)),
{
    b[i] as u64 * 0x100_0000_0000_0000 + b[i + 1] as u64 * 0x1_0000_0000_0000 + b[i + 2] as u64
        * 0x100_0000_0000 + b[i + 3] as u64 * 0x1_0000_0000 + b[i + 4] as u64 * 0x100_0000 + b[i
        + 5] as u64 * 0x1_0000 + b[i + 6] as u64 * 0x100 + b[i + 7] as u64
}

/// One frame on the wire: the payload's length as four big-endian bytes,
/// then the payload.
pub open spec fn frame_bytes(msg: Seq<u8>) -> Seq<u8>
    recommends
        msg.len() <= u32::MAX,
{
    be32(msg.len() as u32) + msg
}

/// Wraps a message in its length-prefixed frame.
pub fn frame_msg(msg: &Vec<u8>) -> (r: Vec<u8>)
    requires
        msg@.len() <= u32::MAX,
    ensures
        r@ == frame_bytes(msg@),
        r@.len() == msg@.len() + 4,
{
    let mut out: Vec<u8> = Vec::new();
    push_be32(&mut out, msg.len() as u32);
    push_bytes(&mut out, msg);
    assert(out@ =~= frame_bytes(msg@));
    out
}

/// Whether a whole frame starts at `i` in `b`.
pub open spec fn frame_complete_at(b: Seq<u8>, i: int) -> bool {
    i + 4 <= b.len() && i + 4 + be32_val(b.subrange(i, i + 4)) <= b.len()
}

/// The payload of the frame that starts at `i` in `b`.
pub open spec fn frame_payload_at(b: Seq<u8>, i: int) -> Seq<u8>
    recommends
        frame_complete_at(b, i),
{
    b.subrange(i + 4, i + 4 + be32_val(b.subrange(i, i + 4)))
}

/// Extracts the one frame that starts at `start`, if the buffer holds all
/// of it: the payload and the offset just past the frame. A buffer that
/// ends mid-frame yields nothing; more bytes must arrive first.
pub fn read_frame(b: &Vec<u8>, start: usize) -> (r: Option<(Vec<u8>, usize)>)
    requires
        start <= b.len(),
    ensures
        match r {
            Some((payload, next)) => frame_complete_at(b@, start as int) && payload@
                == frame_payload_at(b@, start as int) && next == start + 4 + payload@.len(),
            None => !frame_complete_at(b@, start as int),
        },
{
    if b.len() - start < 4 {
        return None;
    }
    let len = read_be32(b, start);
    let avail: usize = b.len() - start - 4;
    if (avail as u64) < (len as u64) {
        return None;
    }
    let len = len as usize;
    let mut payload: Vec<u8> = Vec::new();
    let mut i: usize = 0;
    while i < len
        invariant
            i <= len,
            start + 4 + len <= b.len(),
            payload@ == b@.subrange(start + 4, start + 4 + i),
        decreases len - i,
    {
        payload.push(b[start + 4 + i]);
        i = i + 1;
        assert(payload@ =~= b@.subrange(start + 4, start + 4 + i));
    }
    assert(payload@ =~= frame_payload_at(b@, start as int));
    Some((payload, start + 4 + len))
}

/// A framed message is recovered intact from any buffer that starts with
/// its frame: framing loses nothing and takes nothing from what follows.
pub proof fn lemma_frame_round_trip(msg: Seq<u8>, tail: Seq<u8>)
    requires
        msg.len() <= u32::MAX,
    ensures
        frame_complete_at(frame_bytes(msg) + tail, 0),
        frame_payload_at(frame_bytes(msg) + tail, 0) == msg,
{
    let b = frame_bytes(msg) + tail;
    lemma_be32_round_trip(msg.len() as u32);
    assert(b.subrange(0, 4) =~= be32(msg.len() as u32));
    assert(b.subrange(4, 4 + msg.len() as int) =~= msg);
}

} // verus!
