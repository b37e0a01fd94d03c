//! Unsigned variable-length integers: seven bits per byte, least significant
//! group first, the top bit of a byte set while more bytes follow.

use vstd::prelude::*;

verus! {

/// Bytes that a 32-bit value may take at most.
pub const U32_WIDTH: u8 = 5;

/// Largest final byte of a five-byte 32-bit value.
pub const U32_LAST_MAX: u8 = 15;

/// Bytes that a 64-bit value may take at most.
pub const U64_WIDTH: u8 = 10;

/// Largest final byte of a ten-byte 64-bit value.
pub const U64_LAST_MAX: u8 = 1;

/// One more than the largest value that fits in `width` bytes whose last byte is at
/// most `last_max`.
pub open spec fn varint_cap(width: nat, last_max: nat) -> nat
    decreases width,
{
    if width <= 1 {
        last_max + 1
    } else {
        128 * varint_cap((width - 1) as nat, last_max)
    }
}

/// The shortest encoding of `v`.
pub open spec fn varint(v: nat) -> Seq<u8>
    decreases v,
{
    if v < 128 {
        seq![v as u8]
    } else {
        seq![(v % 128 + 128) as u8] + varint(v / 128)
    }
}

/// Reads one value from the front of `b`: the value and the number of bytes it took.
/// `None` where `b` ends before the value does, where the value takes more than
/// `width` bytes, or where it takes `width` bytes and the last one exceeds `last_max`.
/// Encodings longer than the shortest one are accepted.
pub open spec fn parse_varint(b: Seq<u8>, width: nat, last_max: nat) -> Option<(nat, int)>
    decreases width,
{
    if width == 0 || b.len() == 0 {
        None
    } else if b[0] < 128 {
        if width == 1 && b[0] > last_max {
            None
        } else {
            Some((b[0] as nat, 1))
        }
    } else {
        match parse_varint(b.skip(1), (width - 1) as nat, last_max) {
            Some((v, n)) => Some(((b[0] - 128) as nat + 128 * v, n + 1)),
            None => None,
        }
    }
}

/// A 32-bit value at the front of `b`.
pub open spec fn parse_u32(b: Seq<u8>) -> Option<(nat, int)> {
    parse_varint(b, 5, 15)
}

/// A 64-bit value at the front of `b`.
pub open spec fn parse_u64(b: Seq<u8>) -> Option<(nat, int)> {
    parse_varint(b, 10, 1)
}

/// A cap is at least 1, and at least 128 for two bytes or more.
pub proof fn lemma_cap_positive(width: nat, last_max: nat)
    ensures
        varint_cap(width, last_max) >= 1,
        width >= 2 ==> varint_cap(width, last_max) >= 128,
    decreases width,
{
    if width >= 2 {
        lemma_cap_positive((width - 1) as nat, last_max);
    }
}

/// Five bytes hold exactly the 32-bit values, ten bytes exactly the 64-bit values.
pub proof fn lemma_caps()
    ensures
        varint_cap(5, 15) == 0x1_0000_0000,
        varint_cap(10, 1) == 0x1_0000_0000_0000_0000,
{
    reveal_with_fuel(varint_cap, 11);
}

/// What is read is below the cap and was taken from the bytes at hand.
pub proof fn lemma_parse_bounds(b: Seq<u8>, width: nat, last_max: nat)
    requires
        last_max < 128,
    ensures
        parse_varint(b, width, last_max) matches Some((v, n)) ==> v < varint_cap(width, last_max)
            && 1 <= n <= b.len() && n <= width,
    decreases width,
{
    if width == 0 || b.len() == 0 {
    } else if b[0] < 128 {
        lemma_cap_positive(width, last_max);
    } else {
        lemma_parse_bounds(b.skip(1), (width - 1) as nat, last_max);
        lemma_cap_positive((width - 1) as nat, last_max);
    }
}

/// Reading the shortest encoding of a value gives the value back, whatever follows it.
pub proof fn lemma_varint_round_trip(v: nat, width: nat, last_max: nat, rest: Seq<u8>)
    requires
        width >= 1,
        last_max < 128,
        v < varint_cap(width, last_max),
    ensures
        parse_varint(varint(v) + rest, width, last_max) == Some((v, varint(v).len() as int)),
        (varint(v) + rest).skip(varint(v).len() as int) == rest,
    decreases width,
{
    let b = varint(v) + rest;
    if v < 128 {
        assert(b[0] == v as u8);
        assert(b.skip(1) =~= rest);
    } else {
        assert(width >= 2);
        let tail = varint(v / 128);
        assert(b[0] == (v % 128 + 128) as u8);
        assert(b.skip(1) =~= tail + rest);
        lemma_varint_round_trip(v / 128, (width - 1) as nat, last_max, rest);
        assert(b.skip(varint(v).len() as int) =~= rest);
    }
}

/// Appends the shortest encoding of `v`.
pub fn push_varint(out: &mut Vec<u8>, v: u64)
    ensures
        final(out)@ == old(out)@ + varint(v as nat),
    decreases v,
{
    if v < 128 {
        out.push(v as u8);
        assert(out@ =~= old(out)@ + varint(v as nat));
    } else {
        out.push((v % 128 + 128) as u8);
        push_varint(out, v / 128);
        assert(out@ =~= old(out)@ + varint(v as nat));
    }
}

/// Reads one value at `pos`: the value and the position behind it.
fn take_varint(bytes: &[u8], pos: usize, width: u8, last_max: u8) -> (r: Option<(u64, usize)>)
    requires
        pos <= bytes@.len(),
        last_max < 128,
        varint_cap(width as nat, last_max as nat) <= 0x1_0000_0000_0000_0000,
    ensures
        match parse_varint(bytes@.skip(pos as int), width as nat, last_max as nat) {
            Some((v, n)) => {
                &&& r matches Some((value, next)) && value == v && next == pos + n
                &&& v < varint_cap(width as nat, last_max as nat)
                &&& 1 <= n
                &&& pos + n <= bytes@.len()
            },
            None => r is None,
        },
    decreases width,
{
    proof {
        lemma_parse_bounds(bytes@.skip(pos as int), width as nat, last_max as nat);
    }
    if width == 0 || pos >= bytes.len() {
        return None;
    }
    let b: u8 = bytes[pos];
    if b < 128 {
        if width == 1 && b > last_max {
            None
        } else {
            Some((b as u64, pos + 1))
        }
    } else {
        if width == 1 {
            assert(parse_varint(bytes@.skip(pos as int).skip(1), 0, last_max as nat) is None);
            return None;
        }
        assert(bytes@.skip(pos as int).skip(1) =~= bytes@.skip(pos + 1));
        match take_varint(bytes, pos + 1, width - 1, last_max) {
            Some((v, p)) => Some(((b - 128) as u64 + 128 * v, p)),
            None => None,
        }
    }
}

/// What follows position `pos`, or nothing where `pos` lies behind the end.
pub open spec fn tail_from(b: Seq<u8>, pos: int) -> Seq<u8> {
    if 0 <= pos <= b.len() {
        b.skip(pos)
    } else {
        Seq::empty()
    }
}

/// Reads a 32-bit value at `pos`: the value and the position behind it.
pub fn take_u32(bytes: &[u8], pos: usize) -> (r: Option<(u32, usize)>)
    ensures
        match parse_u32(tail_from(bytes@, pos as int)) {
            Some((v, n)) => {
                &&& r matches Some((value, next)) && value == v && next == pos + n
                &&& 1 <= n
                &&& pos + n <= bytes@.len()
            },
            None => r is None,
        },
{
    proof {
        lemma_caps();
    }
    if pos > bytes.len() {
        return None;
    }
    match take_varint(bytes, pos, U32_WIDTH, U32_LAST_MAX) {
        Some((v, next)) => Some((v as u32, next)),
        None => None,
    }
}

/// Reads a 64-bit value at `pos`: the value and the position behind it.
pub fn take_u64(bytes: &[u8], pos: usize) -> (r: Option<(u64, usize)>)
    ensures
        match parse_u64(tail_from(bytes@, pos as int)) {
            Some((v, n)) => {
                &&& r matches Some((value, next)) && value == v && next == pos + n
                &&& 1 <= n
                &&& pos + n <= bytes@.len()
            },
            None => r is None,
        },
{
    proof {
        lemma_caps();
    }
    if pos > bytes.len() {
        return None;
    }
    take_varint(bytes, pos, U64_WIDTH, U64_LAST_MAX)
}

} // verus!
