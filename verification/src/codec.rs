//! Payload encoding, in the wire format of the `postcard` crate as far as
//! the messages need it. Integers of one byte are written as they are, enum
//! variants as the variable-length index of the variant, an optional value
//! as one byte 0 or 1 followed by the value, text as the variable-length
//! count of its UTF-8 bytes followed by those bytes. Fields follow each
//! other without separators. A decoder reads its value from the front of
//! the payload and ignores what follows it.

use crate::proto::{
    Ack, LedColor, MsgStatus, Notify, RequestError, SetBacklight, SetDimming, SetLed, Status,
};
use crate::varint::{
    tail_from, lemma_caps, lemma_varint_round_trip, parse_u32, parse_u64, push_varint, take_u32,
    take_u64, varint,
};
use crate::wire::{extend_bytes, WireError};
use vstd::prelude::*;
use vstd::utf8::{decode_utf8, encode_utf8, valid_utf8};

verus! {

/// The variant index at the front of `b`, for an enum of `count` variants.
pub open spec fn parse_variant(b: Seq<u8>, count: nat) -> Option<(nat, int)> {
    match parse_u32(b) {
        Some((d, n)) => if d < count {
            Some((d, n))
        } else {
            None
        },
        None => None,
    }
}

/// Reads a variant index at `pos`: the index and the position behind it.
pub fn take_variant(bytes: &[u8], pos: usize, count: u32) -> (r: Option<(u32, usize)>)
    ensures
        match parse_variant(tail_from(bytes@, pos as int), count as nat) {
            Some((d, n)) => {
                &&& r matches Some((index, next)) && index == d && next == pos + n
                &&& d < count
                &&& 1 <= n
                &&& pos + n <= bytes@.len()
            },
            None => r is None,
        },
{
    match take_u32(bytes, pos) {
        Some((d, p)) => {
            if d < count {
                Some((d, p))
            } else {
                None
            }
        },
        None => None,
    }
}

/// A variant index below 128 is one byte, and is read back as itself.
pub proof fn lemma_variant_round_trip(d: nat, count: nat, rest: Seq<u8>)
    requires
        d < count,
        d < 128,
    ensures
        varint(d) == seq![d as u8],
        parse_variant(varint(d) + rest, count) == Some((d, 1int)),
        (varint(d) + rest).skip(1) == rest,
{
    lemma_caps();
    lemma_varint_round_trip(d, 5, 15, rest);
}

impl LedColor {
    /// The index of the variant on the wire.
    pub open spec fn index(self) -> nat {
        match self {
            LedColor::Off => 0,
            LedColor::Green => 1,
            LedColor::Red => 2,
            LedColor::Yellow => 3,
        }
    }

    /// The variant with the given index.
    pub open spec fn of_index(d: nat) -> LedColor {
        if d == 0 {
            LedColor::Off
        } else if d == 1 {
            LedColor::Green
        } else if d == 2 {
            LedColor::Red
        } else {
            LedColor::Yellow
        }
    }
}

impl Status {
    /// The index of the variant on the wire.
    pub open spec fn index(self) -> nat {
        match self {
            Status::Okay => 0,
            Status::Warning => 1,
            Status::Error => 2,
        }
    }

    /// The variant with the given index.
    pub open spec fn of_index(d: nat) -> Status {
        if d == 0 {
            Status::Okay
        } else if d == 1 {
            Status::Warning
        } else {
            Status::Error
        }
    }
}

impl SetDimming {
    /// The index of the variant on the wire.
    pub open spec fn index(self) -> nat {
        match self {
            SetDimming::Lo => 0,
            SetDimming::Hi => 1,
        }
    }

    /// The variant with the given index.
    pub open spec fn of_index(d: nat) -> SetDimming {
        if d == 0 {
            SetDimming::Lo
        } else {
            SetDimming::Hi
        }
    }
}

impl SetBacklight {
    /// The index of the variant on the wire.
    pub open spec fn index(self) -> nat {
        match self {
            SetBacklight::On => 0,
            SetBacklight::Off => 1,
        }
    }

    /// The variant with the given index.
    pub open spec fn of_index(d: nat) -> SetBacklight {
        if d == 0 {
            SetBacklight::On
        } else {
            SetBacklight::Off
        }
    }
}

impl MsgStatus {
    /// The index of the variant on the wire.
    pub open spec fn index(self) -> nat {
        match self {
            MsgStatus::Okay => 0,
            MsgStatus::Truncated => 1,
        }
    }

    /// The variant with the given index.
    pub open spec fn of_index(d: nat) -> MsgStatus {
        if d == 0 {
            MsgStatus::Okay
        } else {
            MsgStatus::Truncated
        }
    }
}

// ---------------------------------------------------------------- SetLed

/// The payload that stands for the value.
pub open spec fn set_led_wire(m: SetLed) -> Seq<u8> {
    seq![m.num] + varint(m.color.index())
}

/// The value at the front of `b` and the number of bytes it takes, if `b`
/// starts with one.
pub open spec fn parse_set_led(b: Seq<u8>) -> Option<(SetLed, int)> {
    if b.len() == 0 {
        None
    } else {
        match parse_variant(b.skip(1), 4) {
            Some((d, n)) => Some((SetLed { num: b[0], color: LedColor::of_index(d) }, n + 1)),
            None => None,
        }
    }
}

/// Encodes the value as a payload.
pub fn encode_set_led(m: &SetLed) -> (out: Vec<u8>)
    ensures
        out@ == set_led_wire(*m),
{
    let mut out: Vec<u8> = Vec::new();
    out.push(m.num);
    let d: u64 = match m.color {
        LedColor::Off => 0,
        LedColor::Green => 1,
        LedColor::Red => 2,
        LedColor::Yellow => 3,
    };
    push_varint(&mut out, d);
    assert(out@ =~= set_led_wire(*m));
    out
}

/// Decodes the value at the front of `payload`, or fails with `Parse` where
/// the payload starts with none.
pub fn decode_set_led(payload: &[u8]) -> (r: Result<SetLed, WireError>)
    ensures
        r == match parse_set_led(payload@) {
            Some((m, n)) => Ok::<SetLed, WireError>(m),
            None => Err::<SetLed, WireError>(WireError::Parse),
        },
{
    if payload.len() == 0 {
        return Err(WireError::Parse);
    }
    let num: u8 = payload[0];
    match take_variant(payload, 1, 4) {
        Some((d, _)) => {
            let color = if d == 0 {
                LedColor::Off
            } else if d == 1 {
                LedColor::Green
            } else if d == 2 {
                LedColor::Red
            } else {
                LedColor::Yellow
            };
            Ok(SetLed { num, color })
        },
        None => Err(WireError::Parse),
    }
}

/// Decoding an encoded `SetLed` gives it back, whatever follows it.
pub proof fn lemma_set_led_round_trip(m: SetLed, rest: Seq<u8>)
    ensures
        parse_set_led(set_led_wire(m) + rest) == Some((m, set_led_wire(m).len() as int)),
{
    let b = set_led_wire(m) + rest;
    lemma_variant_round_trip(m.color.index(), 4, rest);
    assert(b.skip(1) =~= varint(m.color.index()) + rest);
    assert(b[0] == m.num);
}

// ------------------------------------------------------------ SetDimming

/// The payload that stands for the value.
pub open spec fn set_dimming_wire(m: SetDimming) -> Seq<u8> {
    varint(m.index())
}

/// The value at the front of `b` and the number of bytes it takes, if `b`
/// starts with one.
pub open spec fn parse_set_dimming(b: Seq<u8>) -> Option<(SetDimming, int)> {
    match parse_variant(b, 2) {
        Some((d, n)) => Some((SetDimming::of_index(d), n)),
        None => None,
    }
}

/// Encodes the value as a payload.
pub fn encode_set_dimming(m: &SetDimming) -> (out: Vec<u8>)
    ensures
        out@ == set_dimming_wire(*m),
{
    let mut out: Vec<u8> = Vec::new();
    let d: u64 = match m {
        SetDimming::Lo => 0,
        SetDimming::Hi => 1,
    };
    push_varint(&mut out, d);
    assert(out@ =~= set_dimming_wire(*m));
    out
}

/// Decodes the value at the front of `payload`, or fails with `Parse` where
/// the payload starts with none.
pub fn decode_set_dimming(payload: &[u8]) -> (r: Result<SetDimming, WireError>)
    ensures
        r == match parse_set_dimming(payload@) {
            Some((m, n)) => Ok::<SetDimming, WireError>(m),
            None => Err::<SetDimming, WireError>(WireError::Parse),
        },
{
    assert(payload@.skip(0) =~= payload@);
    match take_variant(payload, 0, 2) {
        Some((d, _)) => Ok(
            if d == 0 {
                SetDimming::Lo
            } else {
                SetDimming::Hi
            },
        ),
        None => Err(WireError::Parse),
    }
}

/// Decoding an encoded `SetDimming` gives it back, whatever follows it.
pub proof fn lemma_set_dimming_round_trip(m: SetDimming, rest: Seq<u8>)
    ensures
        parse_set_dimming(set_dimming_wire(m) + rest) == Some(
            (m, set_dimming_wire(m).len() as int),
        ),
{
    lemma_variant_round_trip(m.index(), 2, rest);
}

// ---------------------------------------------------------------- Notify

/// The payload that stands for the value.
pub open spec fn notify_wire(m: Notify) -> Seq<u8> {
    seq![m.num] + varint(m.status.index())
}

/// The value at the front of `b` and the number of bytes it takes, if `b`
/// starts with one.
pub open spec fn parse_notify(b: Seq<u8>) -> Option<(Notify, int)> {
    if b.len() == 0 {
        None
    } else {
        match parse_variant(b.skip(1), 3) {
            Some((d, n)) => Some((Notify { num: b[0], status: Status::of_index(d) }, n + 1)),
            None => None,
        }
    }
}

/// Encodes the value as a payload.
pub fn encode_notify(m: &Notify) -> (out: Vec<u8>)
    ensures
        out@ == notify_wire(*m),
{
    let mut out: Vec<u8> = Vec::new();
    out.push(m.num);
    let d: u64 = match m.status {
        Status::Okay => 0,
        Status::Warning => 1,
        Status::Error => 2,
    };
    push_varint(&mut out, d);
    assert(out@ =~= notify_wire(*m));
    out
}

/// Decodes the value at the front of `payload`, or fails with `Parse` where
/// the payload starts with none.
pub fn decode_notify(payload: &[u8]) -> (r: Result<Notify, WireError>)
    ensures
        r == match parse_notify(payload@) {
            Some((m, n)) => Ok::<Notify, WireError>(m),
            None => Err::<Notify, WireError>(WireError::Parse),
        },
{
    if payload.len() == 0 {
        return Err(WireError::Parse);
    }
    let num: u8 = payload[0];
    match take_variant(payload, 1, 3) {
        Some((d, _)) => {
            let status = if d == 0 {
                Status::Okay
            } else if d == 1 {
                Status::Warning
            } else {
                Status::Error
            };
            Ok(Notify { num, status })
        },
        None => Err(WireError::Parse),
    }
}

/// Decoding an encoded `Notify` gives it back, whatever follows it.
pub proof fn lemma_notify_round_trip(m: Notify, rest: Seq<u8>)
    ensures
        parse_notify(notify_wire(m) + rest) == Some((m, notify_wire(m).len() as int)),
{
    let b = notify_wire(m) + rest;
    lemma_variant_round_trip(m.status.index(), 3, rest);
    assert(b.skip(1) =~= varint(m.status.index()) + rest);
    assert(b[0] == m.num);
}

// ------------------------------------------------------------------- Ack

/// The payload that stands for the value.
pub open spec fn ack_wire(m: Ack) -> Seq<u8> {
    match m.num {
        Some(num) => seq![1u8, num],
        None => seq![0u8],
    }
}

/// The value at the front of `b` and the number of bytes it takes, if `b`
/// starts with one.
pub open spec fn parse_ack(b: Seq<u8>) -> Option<(Ack, int)> {
    if b.len() == 0 {
        None
    } else if b[0] == 0 {
        Some((Ack { num: None }, 1))
    } else if b[0] == 1 && b.len() >= 2 {
        Some((Ack { num: Some(b[1]) }, 2))
    } else {
        None
    }
}

/// Encodes the value as a payload.
pub fn encode_ack(m: &Ack) -> (out: Vec<u8>)
    ensures
        out@ == ack_wire(*m),
{
    let mut out: Vec<u8> = Vec::new();
    match m.num {
        Some(num) => {
            out.push(1);
            out.push(num);
        },
        None => {
            out.push(0);
        },
    }
    assert(out@ =~= ack_wire(*m));
    out
}

/// Decodes the value at the front of `payload`, or fails with `Parse` where
/// the payload starts with none.
pub fn decode_ack(payload: &[u8]) -> (r: Result<Ack, WireError>)
    ensures
        r == match parse_ack(payload@) {
            Some((m, n)) => Ok::<Ack, WireError>(m),
            None => Err::<Ack, WireError>(WireError::Parse),
        },
{
    if payload.len() == 0 {
        Err(WireError::Parse)
    } else if payload[0] == 0 {
        Ok(Ack { num: None })
    } else if payload[0] == 1 && payload.len() >= 2 {
        Ok(Ack { num: Some(payload[1]) })
    } else {
        Err(WireError::Parse)
    }
}

/// Decoding an encoded `Ack` gives it back, whatever follows it.
pub proof fn lemma_ack_round_trip(m: Ack, rest: Seq<u8>)
    ensures
        parse_ack(ack_wire(m) + rest) == Some((m, ack_wire(m).len() as int)),
{
    let b = ack_wire(m) + rest;
    assert(b[0] == ack_wire(m)[0]);
    if m.num is Some {
        assert(b[1] == ack_wire(m)[1]);
    }
}

// ---------------------------------------------------------- SetBacklight

/// The payload that stands for the value.
pub open spec fn set_backlight_wire(m: SetBacklight) -> Seq<u8> {
    varint(m.index())
}

/// The value at the front of `b` and the number of bytes it takes, if `b`
/// starts with one.
pub open spec fn parse_set_backlight(b: Seq<u8>) -> Option<(SetBacklight, int)> {
    match parse_variant(b, 2) {
        Some((d, n)) => Some((SetBacklight::of_index(d), n)),
        None => None,
    }
}

/// Encodes the value as a payload.
pub fn encode_set_backlight(m: &SetBacklight) -> (out: Vec<u8>)
    ensures
        out@ == set_backlight_wire(*m),
{
    let mut out: Vec<u8> = Vec::new();
    let d: u64 = match m {
        SetBacklight::On => 0,
        SetBacklight::Off => 1,
    };
    push_varint(&mut out, d);
    assert(out@ =~= set_backlight_wire(*m));
    out
}

/// Decodes the value at the front of `payload`, or fails with `Parse` where
/// the payload starts with none.
pub fn decode_set_backlight(payload: &[u8]) -> (r: Result<SetBacklight, WireError>)
    ensures
        r == match parse_set_backlight(payload@) {
            Some((m, n)) => Ok::<SetBacklight, WireError>(m),
            None => Err::<SetBacklight, WireError>(WireError::Parse),
        },
{
    assert(payload@.skip(0) =~= payload@);
    match take_variant(payload, 0, 2) {
        Some((d, _)) => Ok(
            if d == 0 {
                SetBacklight::On
            } else {
                SetBacklight::Off
            },
        ),
        None => Err(WireError::Parse),
    }
}

/// Decoding an encoded `SetBacklight` gives it back, whatever follows it.
pub proof fn lemma_set_backlight_round_trip(m: SetBacklight, rest: Seq<u8>)
    ensures
        parse_set_backlight(set_backlight_wire(m) + rest) == Some(
            (m, set_backlight_wire(m).len() as int),
        ),
{
    lemma_variant_round_trip(m.index(), 2, rest);
}

// ------------------------------------------------------------------ text

/// The payload that stands for a text.
pub open spec fn text_wire(s: Seq<char>) -> Seq<u8> {
    varint(encode_utf8(s).len()) + encode_utf8(s)
}

/// The text at the front of `b`: `None` where the byte count cannot be
/// read, where fewer bytes follow than it announces, or where those bytes
/// are not UTF-8.
pub open spec fn parse_text(b: Seq<u8>) -> Option<(Seq<char>, int)> {
    match parse_u64(b) {
        Some((len, n)) => if n + len <= b.len() && valid_utf8(b.subrange(n, n + len)) {
            Some((decode_utf8(b.subrange(n, n + len)), n + len))
        } else {
            None
        },
        None => None,
    }
}

/// `String::from_utf8` of std, with the reason of a failure dropped. Taken
/// on trust: it gives the text that the bytes spell, and nothing where they
/// are not UTF-8.
#[verifier::external_body]
fn utf8_to_string(bytes: Vec<u8>) -> (r: Option<String>)
    ensures
        r is Some <==> valid_utf8(bytes@),
        r is Some ==> r->Some_0@ == decode_utf8(bytes@),
{
    String::from_utf8(bytes).ok()
}

/// Encodes the value as a payload.
pub fn encode_text(s: &str) -> (out: Vec<u8>)
    ensures
        out@ == text_wire(s@),
{
    let bytes = s.as_bytes();
    let mut out: Vec<u8> = Vec::new();
    push_varint(&mut out, bytes.len() as u64);
    extend_bytes(&mut out, bytes);
    out
}

/// Decodes the value at the front of `payload`, or fails with `Parse` where
/// the payload starts with none.
pub fn decode_text(payload: &[u8]) -> (r: Result<String, WireError>)
    ensures
        match parse_text(payload@) {
            Some((s, n)) => r is Ok && r->Ok_0@ == s,
            None => r == Err::<String, WireError>(WireError::Parse),
        },
{
    assert(payload@.skip(0) =~= payload@);
    match take_u64(payload, 0) {
        Some((len, start)) => {
            if len > (payload.len() - start) as u64 {
                return Err(WireError::Parse);
            }
            let end: usize = start + len as usize;
            let mut raw: Vec<u8> = Vec::new();
            extend_bytes(&mut raw, vstd::slice::slice_subrange(payload, start, end));
            assert(raw@ =~= payload@.subrange(start as int, end as int));
            match utf8_to_string(raw) {
                Some(s) => Ok(s),
                None => Err(WireError::Parse),
            }
        },
        None => Err(WireError::Parse),
    }
}

/// Decoding an encoded text gives it back, whatever follows it.
pub proof fn lemma_text_round_trip(s: Seq<char>, rest: Seq<u8>)
    requires
        encode_utf8(s).len() < 0x1_0000_0000_0000_0000,
    ensures
        parse_text(text_wire(s) + rest) == Some((s, text_wire(s).len() as int)),
{
    let body = encode_utf8(s);
    let head = varint(body.len());
    let b = text_wire(s) + rest;
    lemma_caps();
    assert(b =~= head + (body + rest));
    lemma_varint_round_trip(body.len(), 10, 1, body + rest);
    let n = head.len() as int;
    assert(b.subrange(n, n + body.len()) =~= body);
    vstd::utf8::encode_utf8_valid_utf8(s);
    vstd::utf8::encode_utf8_decode_utf8(s);
}

// --------------------------------------------------------------- replies

/// The payload of a reply that carries nothing but success or refusal.
pub open spec fn unit_reply_wire(r: Result<(), RequestError>) -> Seq<u8> {
    match r {
        Ok(_) => seq![0u8],
        Err(_) => seq![1u8],
    }
}

/// The value at the front of `b` and the number of bytes it takes, if `b`
/// starts with one.
pub open spec fn parse_unit_reply(b: Seq<u8>) -> Option<(Result<(), RequestError>, int)> {
    match parse_variant(b, 2) {
        Some((d, n)) => Some(
            (
                if d == 0 {
                    Ok(())
                } else {
                    Err(RequestError {  })
                },
                n,
            ),
        ),
        None => None,
    }
}

/// Encodes the value as a payload.
pub fn encode_unit_reply(r: &Result<(), RequestError>) -> (out: Vec<u8>)
    ensures
        out@ == unit_reply_wire(*r),
{
    let mut out: Vec<u8> = Vec::new();
    match r {
        Ok(_) => out.push(0),
        Err(_) => out.push(1),
    }
    assert(out@ =~= unit_reply_wire(*r));
    out
}

/// Decodes the value at the front of `payload`, or fails with `Parse` where
/// the payload starts with none.
pub fn decode_unit_reply(payload: &[u8]) -> (r: Result<Result<(), RequestError>, WireError>)
    ensures
        r == match parse_unit_reply(payload@) {
            Some((m, n)) => Ok::<Result<(), RequestError>, WireError>(m),
            None => Err::<Result<(), RequestError>, WireError>(WireError::Parse),
        },
{
    assert(payload@.skip(0) =~= payload@);
    match take_variant(payload, 0, 2) {
        Some((d, _)) => Ok(
            if d == 0 {
                Ok(())
            } else {
                Err(RequestError {  })
            },
        ),
        None => Err(WireError::Parse),
    }
}

/// Decoding an encoded reply gives it back, whatever follows it.
pub proof fn lemma_unit_reply_round_trip(r: Result<(), RequestError>, rest: Seq<u8>)
    ensures
        parse_unit_reply(unit_reply_wire(r) + rest) == Some((r, 1int)),
{
    let d: nat = if r is Ok {
        0
    } else {
        1
    };
    lemma_variant_round_trip(d, 2, rest);
    assert(unit_reply_wire(r) =~= varint(d));
    match r {
        Ok(u) => {
            assert(u == ());
        },
        Err(e) => {
            assert(e == RequestError {  });
        },
    }
}

/// The payload of the reply to a message for the LCD.
pub open spec fn msg_reply_wire(r: Result<MsgStatus, RequestError>) -> Seq<u8> {
    match r {
        Ok(status) => seq![0u8, status.index() as u8],
        Err(_) => seq![1u8],
    }
}

/// The value at the front of `b` and the number of bytes it takes, if `b`
/// starts with one.
pub open spec fn parse_msg_reply(b: Seq<u8>) -> Option<(Result<MsgStatus, RequestError>, int)> {
    match parse_variant(b, 2) {
        Some((d, n)) => if d == 0 {
            match parse_variant(b.skip(n), 2) {
                Some((s, k)) => Some((Ok(MsgStatus::of_index(s)), n + k)),
                None => None,
            }
        } else {
            Some((Err(RequestError {  }), n))
        },
        None => None,
    }
}

/// Encodes the value as a payload.
pub fn encode_msg_reply(r: &Result<MsgStatus, RequestError>) -> (out: Vec<u8>)
    ensures
        out@ == msg_reply_wire(*r),
{
    let mut out: Vec<u8> = Vec::new();
    match r {
        Ok(MsgStatus::Okay) => {
            out.push(0);
            out.push(0);
        },
        Ok(MsgStatus::Truncated) => {
            out.push(0);
            out.push(1);
        },
        Err(_) => {
            out.push(1);
        },
    }
    assert(out@ =~= msg_reply_wire(*r));
    out
}

/// Decodes the value at the front of `payload`, or fails with `Parse` where
/// the payload starts with none.
pub fn decode_msg_reply(payload: &[u8]) -> (r: Result<Result<MsgStatus, RequestError>, WireError>)
    ensures
        r == match parse_msg_reply(payload@) {
            Some((m, n)) => Ok::<Result<MsgStatus, RequestError>, WireError>(m),
            None => Err::<Result<MsgStatus, RequestError>, WireError>(WireError::Parse),
        },
{
    assert(payload@.skip(0) =~= payload@);
    match take_variant(payload, 0, 2) {
        Some((d, p)) => {
            if d == 0 {
                match take_variant(payload, p, 2) {
                    Some((s, _)) => Ok(
                        Ok(
                            if s == 0 {
                                MsgStatus::Okay
                            } else {
                                MsgStatus::Truncated
                            },
                        ),
                    ),
                    None => Err(WireError::Parse),
                }
            } else {
                Ok(Err(RequestError {  }))
            }
        },
        None => Err(WireError::Parse),
    }
}

/// Decoding an encoded reply gives it back, whatever follows it.
pub proof fn lemma_msg_reply_round_trip(r: Result<MsgStatus, RequestError>, rest: Seq<u8>)
    ensures
        parse_msg_reply(msg_reply_wire(r) + rest) == Some((r, msg_reply_wire(r).len() as int)),
{
    let b = msg_reply_wire(r) + rest;
    match r {
        Ok(status) => {
            let tail = varint(status.index()) + rest;
            lemma_variant_round_trip(0, 2, tail);
            lemma_variant_round_trip(status.index(), 2, rest);
            assert(b =~= varint(0) + tail);
        },
        Err(e) => {
            lemma_variant_round_trip(1, 2, rest);
            assert(b =~= varint(1) + rest);
        },
    }
}

} // verus!
