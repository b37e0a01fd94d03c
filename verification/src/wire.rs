//! Datagram framing: every datagram starts with a twelve-byte header, the
//! sequence number (four bytes, little-endian) followed by the endpoint key
//! (eight bytes, little-endian), and the payload follows.

use vstd::prelude::*;

verus! {

/// Length of the header in bytes.
pub const HEADER_LEN: usize = 12;

/// Largest datagram, header included, that is sent or accepted.
pub const MAX_DATAGRAM: usize = 1024;

/// The 64-bit fingerprint that identifies an endpoint on the wire.
#[derive(Clone, Copy, Debug, PartialEq, Eq, Structural, Hash)]
pub struct Key(pub u64);

/// The header that precedes every payload.
#[derive(Clone, Copy, Debug, PartialEq, Eq, Structural)]
pub struct WireHeader {
    pub key: Key,
    pub seq_no: u32,
}

/// Why a datagram could not be read or written.
#[derive(Clone, Copy, Debug, PartialEq, Eq, Structural)]
pub enum WireError {
    /// The bytes end before the value does, or hold a value that the format
    /// does not allow.
    Parse,
    /// The datagram would be longer than `MAX_DATAGRAM`.
    BufferFull,
}

/// The four little-endian bytes of `x`.
pub open spec fn u32_le(x: u32) -> Seq<u8> {
    seq![
        (x % 256) as u8,
        (x / 256 % 256) as u8,
        (x / 65536 % 256) as u8,
        (x / 16777216) as u8,
    ]
}

/// The number whose little-endian bytes are the first four of `b`.
pub open spec fn u32_from_le(b: Seq<u8>) -> u32
    recommends
        b.len() >= 4,
{
    (b[0] + b[1] * 256 + b[2] * 65536 + b[3] * 16777216) as u32
}

/// The eight little-endian bytes of `x`.
pub open spec fn u64_le(x: u64) -> Seq<u8> {
    u32_le((x % 4294967296) as u32) + u32_le((x / 4294967296) as u32)
}

/// The number whose little-endian bytes are the first eight of `b`.
pub open spec fn u64_from_le(b: Seq<u8>) -> u64
    recommends
        b.len() >= 8,
{
    (u32_from_le(b) + u32_from_le(b.skip(4)) * 4294967296) as u64
}

impl WireHeader {
    /// The twelve bytes that stand for this header.
    pub open spec fn wire(self) -> Seq<u8> {
        u32_le(self.seq_no) + u64_le(self.key.0)
    }
}

/// The header that the first twelve bytes of `b` stand for.
pub open spec fn header_of(b: Seq<u8>) -> WireHeader
    recommends
        b.len() >= 12,
{
    WireHeader { seq_no: u32_from_le(b), key: Key(u64_from_le(b.skip(4))) }
}

/// A datagram: the header followed by the payload.
pub open spec fn framed(hdr: WireHeader, payload: Seq<u8>) -> Seq<u8> {
    hdr.wire() + payload
}

/// Reading back four little-endian bytes gives the number they were made of,
/// whatever follows them.
pub proof fn lemma_u32_le_round_trip(x: u32, rest: Seq<u8>)
    ensures
        u32_le(x).len() == 4,
        u32_from_le(u32_le(x) + rest) == x,
        (u32_le(x) + rest).skip(4) == rest,
{
    let b = u32_le(x) + rest;
    assert(b[0] == u32_le(x)[0]);
    assert(b[1] == u32_le(x)[1]);
    assert(b[2] == u32_le(x)[2]);
    assert(b[3] == u32_le(x)[3]);
    assert(b.skip(4) =~= rest);
}

/// Writing the number that four bytes stand for gives those bytes back.
pub proof fn lemma_u32_from_le_round_trip(b: Seq<u8>)
    requires
        b.len() >= 4,
    ensures
        u32_le(u32_from_le(b)) == b.take(4),
{
    let b0 = b[0] as int;
    let b1 = b[1] as int;
    let b2 = b[2] as int;
    let b3 = b[3] as int;
    let x = b0 + b1 * 256 + b2 * 65536 + b3 * 16777216;
    assert(x % 256 == b0 && x / 256 % 256 == b1 && x / 65536 % 256 == b2 && x / 16777216 == b3)
        by (nonlinear_arith)
        requires
            0 <= b0 < 256,
            0 <= b1 < 256,
            0 <= b2 < 256,
            0 <= b3 < 256,
            x == b0 + b1 * 256 + b2 * 65536 + b3 * 16777216,
    ;
    assert(u32_le(u32_from_le(b)) =~= b.take(4));
}

/// Reading back eight little-endian bytes gives the number they were made
/// of, whatever follows them.
pub proof fn lemma_u64_le_round_trip(x: u64, rest: Seq<u8>)
    ensures
        u64_le(x).len() == 8,
        u64_from_le(u64_le(x) + rest) == x,
        (u64_le(x) + rest).skip(8) == rest,
{
    let lo = (x % 4294967296) as u32;
    let hi = (x / 4294967296) as u32;
    let b = u64_le(x) + rest;
    assert(b =~= u32_le(lo) + (u32_le(hi) + rest));
    lemma_u32_le_round_trip(lo, u32_le(hi) + rest);
    lemma_u32_le_round_trip(hi, rest);
    assert(b.skip(8) =~= rest);
}

/// Writing the number that eight bytes stand for gives those bytes back.
pub proof fn lemma_u64_from_le_round_trip(b: Seq<u8>)
    requires
        b.len() >= 8,
    ensures
        u64_le(u64_from_le(b)) == b.take(8),
{
    let lo = u32_from_le(b);
    let hi = u32_from_le(b.skip(4));
    let x = u64_from_le(b);
    assert((x % 4294967296) as u32 == lo);
    assert((x / 4294967296) as u32 == hi);
    lemma_u32_from_le_round_trip(b);
    lemma_u32_from_le_round_trip(b.skip(4));
    assert(b.skip(4).take(4) =~= b.subrange(4, 8));
    assert(u64_le(x) =~= b.take(8));
}

fn push_u32_le(out: &mut Vec<u8>, x: u32)
    ensures
        final(out)@ == old(out)@ + u32_le(x),
{
    out.push((x % 256) as u8);
    out.push((x / 256 % 256) as u8);
    out.push((x / 65536 % 256) as u8);
    out.push((x / 16777216) as u8);
    assert(out@ =~= old(out)@ + u32_le(x));
}

fn read_u32_le(bytes: &[u8], at: usize) -> (x: u32)
    requires
        at + 4 <= bytes@.len(),
    ensures
        x == u32_from_le(bytes@.skip(at as int)),
{
    let b0: u32 = bytes[at] as u32;
    let b1: u32 = bytes[at + 1] as u32;
    let b2: u32 = bytes[at + 2] as u32;
    let b3: u32 = bytes[at + 3] as u32;
    b0 + b1 * 256 + b2 * 65536 + b3 * 16777216
}

/// Appends the payload to `out` byte by byte.
pub fn extend_bytes(out: &mut Vec<u8>, payload: &[u8])
    ensures
        final(out)@ == old(out)@ + payload@,
{
    let mut i: usize = 0;
    while i < payload.len()
        invariant
            i <= payload@.len(),
            out@ == old(out)@ + payload@.take(i as int),
        decreases payload@.len() - i,
    {
        out.push(payload[i]);
        assert(payload@.take(i + 1) =~= payload@.take(i as int).push(payload@[i as int]));
        i += 1;
    }
    assert(payload@.take(i as int) =~= payload@);
}

/// Builds the datagram for `payload` under the given sequence number and
/// key. Fails with `BufferFull` exactly when the datagram would be longer
/// than `MAX_DATAGRAM`.
pub fn to_vec_keyed(seq_no: u32, key: Key, payload: &[u8]) -> (r: Result<Vec<u8>, WireError>)
    ensures
        payload@.len() + HEADER_LEN > MAX_DATAGRAM <==> r is Err,
        r is Err ==> r == Err::<Vec<u8>, WireError>(WireError::BufferFull),
        r is Ok ==> r->Ok_0@ == framed(WireHeader { key, seq_no }, payload@),
{
    if payload.len() > MAX_DATAGRAM - HEADER_LEN {
        return Err(WireError::BufferFull);
    }
    let mut out: Vec<u8> = Vec::new();
    push_u32_le(&mut out, seq_no);
    push_u32_le(&mut out, (key.0 % 4294967296) as u32);
    push_u32_le(&mut out, (key.0 / 4294967296) as u32);
    extend_bytes(&mut out, payload);
    assert(out@ =~= framed(WireHeader { key, seq_no }, payload@));
    Ok(out)
}

/// Splits a datagram into its header and its payload. Fails with `Parse`
/// exactly when the datagram is shorter than the header.
pub fn extract_header_from_bytes(bytes: &[u8]) -> (r: Result<(WireHeader, &[u8]), WireError>)
    ensures
        bytes@.len() < HEADER_LEN <==> r is Err,
        r is Err ==> r == Err::<(WireHeader, &[u8]), WireError>(WireError::Parse),
        r is Ok ==> r->Ok_0.0 == header_of(bytes@) && r->Ok_0.1@ == bytes@.skip(12)
            && framed(r->Ok_0.0, r->Ok_0.1@) == bytes@,
{
    if bytes.len() < HEADER_LEN {
        return Err(WireError::Parse);
    }
    let seq_no = read_u32_le(bytes, 0);
    let lo = read_u32_le(bytes, 4);
    let hi = read_u32_le(bytes, 8);
    let bits: u64 = lo as u64 + (hi as u64) * 4294967296;
    let rest = vstd::slice::slice_subrange(bytes, HEADER_LEN, bytes.len());
    let hdr = WireHeader { key: Key(bits), seq_no };
    proof {
        assert(bytes@.skip(0) =~= bytes@);
        assert(bytes@.skip(4).skip(4) =~= bytes@.skip(8));
        assert(rest@ =~= bytes@.skip(12));
        lemma_parse_frame(bytes@);
    }
    Ok((hdr, rest))
}

/// Parsing a datagram and framing what was parsed gives the datagram back.
pub proof fn lemma_parse_frame(bytes: Seq<u8>)
    requires
        bytes.len() >= 12,
    ensures
        framed(header_of(bytes), bytes.skip(12)) == bytes,
{
    let hdr = header_of(bytes);
    lemma_u32_from_le_round_trip(bytes);
    lemma_u64_from_le_round_trip(bytes.skip(4));
    assert(bytes.skip(4).take(8) =~= bytes.subrange(4, 12));
    assert(framed(hdr, bytes.skip(12)) =~= bytes);
}

/// Framing a payload and parsing the datagram gives back the same header
/// and the same payload, for every sequence number, key and payload.
pub proof fn lemma_frame_parse(hdr: WireHeader, payload: Seq<u8>)
    ensures
        framed(hdr, payload).len() == 12 + payload.len(),
        header_of(framed(hdr, payload)) == hdr,
        framed(hdr, payload).skip(12) == payload,
{
    let d = framed(hdr, payload);
    let tail = u64_le(hdr.key.0) + payload;
    assert(d =~= u32_le(hdr.seq_no) + tail);
    lemma_u32_le_round_trip(hdr.seq_no, tail);
    lemma_u64_le_round_trip(hdr.key.0, payload);
    assert(d.skip(4) =~= tail);
    assert(d.skip(12) =~= payload);
}

} // verus!
