//! The client's side of a call. A call sends its request, waits for a
//! reply, sends again when the wait times out, and gives up after the
//! configured number of retries. The socket belongs to the caller: `Call`
//! decides, for each thing the socket reports, whether to send again or
//! how the call ends.

use crate::codec::{
    decode_msg_reply, decode_text, decode_unit_reply, encode_ack, encode_notify,
    encode_set_backlight, encode_set_dimming, encode_set_led, encode_text, parse_msg_reply,
    parse_text, parse_unit_reply, ack_wire, notify_wire, set_backlight_wire, set_dimming_wire,
    set_led_wire, text_wire,
};
use crate::dispatch::{Endpoint, EndpointKeys, Request};
use crate::proto::{
    Ack, Echo, Notify, RequestError, SendMsg, SetBacklight, SetDimming, SetLed,
};
use crate::wire::{
    extend_bytes, extract_header_from_bytes, framed, header_of, lemma_frame_parse, to_vec_keyed,
    Key, WireHeader,
};
use vstd::prelude::*;

verus! {

/// The sequence number of every request.
pub const SEQ_NO: u32 = 0;

/// A result together with the number of retries it took.
#[derive(Debug, PartialEq, Eq)]
pub struct ConnHealth<T>(pub T, pub u8);

impl<T> ConnHealth<T> {
    /// The result itself.
    pub fn payload(self) -> (t: T)
        ensures
            t == self.0,
    {
        self.0
    }

    /// How often the request was sent again.
    pub fn retries(&self) -> (n: u8)
        ensures
            n == self.1,
    {
        self.1
    }
}

/// Why a call failed.
#[derive(Clone, Copy, Debug, PartialEq, Eq, Structural)]
pub enum Error {
    /// A call was made before `connect`.
    NotConnected,
    /// The socket failed.
    Io,
    /// The request does not fit in a datagram, or the reply cannot be read.
    Parse,
    /// The reply's header is not that of the request.
    BadResponse { seq_no: u32, key: Key },
    /// No reply came in time, after every retry.
    NoResponse { seq_no: u32, key: Key },
    /// The server saw the request and refused it.
    RequestFailed(RequestError),
}

impl Error {
    /// The text shown for this error.
    pub fn message(&self) -> (s: &'static str)
        ensures
            s@ == (match self {
                Error::NotConnected => "client not connected"@,
                Error::Io => "io error"@,
                Error::BadResponse { .. } => "unexpected response seq no and key"@,
                Error::NoResponse { .. } => "no response from server before timeout"@,
                Error::Parse => "could not ser/deserialize RPC call"@,
                Error::RequestFailed(_) => "server saw request but failed to process it"@,
            }),
    {
        match self {
            Error::NotConnected => "client not connected",
            Error::Io => "io error",
            Error::BadResponse { .. } => "unexpected response seq no and key",
            Error::NoResponse { .. } => "no response from server before timeout",
            Error::Parse => "could not ser/deserialize RPC call",
            Error::RequestFailed(_) => "server saw request but failed to process it",
        }
    }
}

/// What the socket reported after a request was sent.
#[derive(Clone, Copy, Debug)]
pub enum Received<'a> {
    /// A datagram arrived.
    Datagram(&'a [u8]),
    /// Nothing arrived before the read timed out.
    TimedOut,
    /// The socket failed otherwise.
    Failed,
}

/// How a call goes on.
#[derive(Debug, PartialEq, Eq)]
pub enum Turn {
    /// Send the request again and wait once more.
    Resend,
    /// The call is over: the reply's payload and the retries used, or the
    /// error.
    Done(Result<(Vec<u8>, u8), Error>),
}

/// What a client remembers between calls.
#[derive(Clone, Copy, Debug, PartialEq, Eq)]
pub struct Client {
    connected: bool,
    retries: u8,
}

/// One call in progress.
#[derive(Clone, Debug, PartialEq, Eq)]
pub struct Call {
    key: Key,
    datagram: Vec<u8>,
    retries: u8,
    retry: u8,
}

impl Call {
    /// The key of the endpoint that is called.
    pub closed spec fn key(&self) -> Key {
        self.key
    }

    /// The request as it is sent, header included.
    pub closed spec fn request(&self) -> Seq<u8> {
        self.datagram@
    }

    /// Retries allowed.
    pub closed spec fn allowed(&self) -> u8 {
        self.retries
    }

    /// Retries used so far.
    pub closed spec fn used(&self) -> u8 {
        self.retry
    }

    /// As many retries used as allowed, at most.
    pub open spec fn wf(&self) -> bool {
        self.used() <= self.allowed()
    }

    /// Whether `later` is this call with `n` more retries used.
    pub open spec fn advanced(&self, later: Call, n: nat) -> bool {
        &&& later.key() == self.key()
        &&& later.request() == self.request()
        &&& later.allowed() == self.allowed()
        &&& later.used() == self.used() + n
    }

    /// How the call ends on a datagram.
    pub open spec fn verdict(&self, bytes: Seq<u8>) -> Result<(Seq<u8>, u8), Error> {
        if bytes.len() < 12 {
            Err(Error::Parse)
        } else {
            let hdr = header_of(bytes);
            if hdr.seq_no == 0 && hdr.key == self.key() {
                Ok((bytes.skip(12), self.used()))
            } else {
                Err(Error::BadResponse { seq_no: hdr.seq_no, key: hdr.key })
            }
        }
    }

    /// The datagram to send, first and on every retry.
    pub fn datagram(&self) -> (d: &[u8])
        ensures
            d@ == self.request(),
    {
        self.datagram.as_slice()
    }

    /// Decides how the call goes on after what the socket reported.
    ///
    /// On a timeout the request is sent again while retries are left, and
    /// the call ends with `NoResponse` once they are used up. A failure of
    /// the socket ends it with `Io`. A datagram ends it: with `Parse` where
    /// it is shorter than a header, with `BadResponse` where its sequence
    /// number or key is not that of the request, else with its payload and
    /// the number of retries used.
    pub fn on_recv(&mut self, received: Received<'_>) -> (turn: Turn)
        requires
            old(self).wf(),
        ensures
            final(self).wf(),
            match received {
                Received::TimedOut => match on_timeout(old(self).used(), old(self).allowed()) {
                    Some(used) => turn is Resend && old(self).advanced(*final(self), 1)
                        && final(self).used() == used,
                    None => turn == Turn::Done(
                        Err(Error::NoResponse { seq_no: 0, key: old(self).key() }),
                    ) && *final(self) == *old(self),
                },
                Received::Failed => {
                    &&& turn == Turn::Done(Err(Error::Io))
                    &&& *final(self) == *old(self)
                },
                Received::Datagram(bytes) => *final(self) == *old(self) && (match old(self)
                    .verdict(bytes@) {
                    Ok((payload, used)) => turn matches Turn::Done(Ok(got)) && got.0@ == payload
                        && got.1 == used,
                    Err(e) => turn == Turn::Done(Err(e)),
                }),
            },
    {
        match received {
            Received::TimedOut => {
                if self.retry < self.retries {
                    self.retry = self.retry + 1;
                    Turn::Resend
                } else {
                    Turn::Done(Err(Error::NoResponse { seq_no: SEQ_NO, key: self.key }))
                }
            },
            Received::Failed => Turn::Done(Err(Error::Io)),
            Received::Datagram(bytes) => {
                match extract_header_from_bytes(bytes) {
                    Err(_) => Turn::Done(Err(Error::Parse)),
                    Ok((hdr, rest)) => {
                        if hdr.seq_no == SEQ_NO && hdr.key == self.key {
                            let mut payload: Vec<u8> = Vec::new();
                            extend_bytes(&mut payload, rest);
                            Turn::Done(Ok((payload, self.retry)))
                        } else {
                            Turn::Done(
                                Err(Error::BadResponse { seq_no: hdr.seq_no, key: hdr.key }),
                            )
                        }
                    },
                }
            },
        }
    }
}

impl Default for Client {
    fn default() -> (c: Client)
        ensures
            !c.is_connected(),
            c.allowed() == 0,
    {
        Client::new()
    }
}

impl Client {
    /// Whether `connect` was called.
    pub closed spec fn is_connected(&self) -> bool {
        self.connected
    }

    /// Retries allowed for each call.
    pub closed spec fn allowed(&self) -> u8 {
        self.retries
    }

    /// A client that is not connected yet.
    pub fn new() -> (c: Client)
        ensures
            !c.is_connected(),
            c.allowed() == 0,
    {
        Client { connected: false, retries: 0 }
    }

    /// Records that the socket is bound and connected, and how often a
    /// request is sent again.
    pub fn connect(&mut self, retries: u8)
        ensures
            final(self).is_connected(),
            final(self).allowed() == retries,
    {
        self.connected = true;
        self.retries = retries;
    }

    /// Starts a call: frames `payload` under sequence number 0 and `key`.
    /// Fails with `Parse` where the request does not fit in a datagram,
    /// else with `NotConnected` before `connect`.
    pub fn raw(&self, key: Key, payload: &[u8]) -> (r: Result<Call, Error>)
        ensures
            self.begins(r, key, payload@),
    {
        let datagram = match to_vec_keyed(SEQ_NO, key, payload) {
            Ok(d) => d,
            Err(_) => {
                return Err(Error::Parse);
            },
        };
        if !self.connected {
            return Err(Error::NotConnected);
        }
        Ok(Call { key, datagram, retries: self.retries, retry: 0 })
    }

    /// Starts an echo call.
    pub fn echo(&self, key: Key, msg: &Echo) -> (r: Result<Call, Error>)
        ensures
            self.begins(r, key, text_wire(msg.0@)),
    {
        let payload = encode_text(msg.0.as_str());
        self.raw(key, payload.as_slice())
    }

    /// Starts a call that sets one LED.
    pub fn set_led(&self, key: Key, msg: SetLed) -> (r: Result<Call, Error>)
        ensures
            self.begins(r, key, set_led_wire(msg)),
    {
        let payload = encode_set_led(&msg);
        self.raw(key, payload.as_slice())
    }

    /// Starts a notification.
    pub fn notify(&self, key: Key, msg: Notify) -> (r: Result<Call, Error>)
        ensures
            self.begins(r, key, notify_wire(msg)),
    {
        let payload = encode_notify(&msg);
        self.raw(key, payload.as_slice())
    }

    /// Starts an acknowledgement.
    pub fn ack(&self, key: Key, msg: Ack) -> (r: Result<Call, Error>)
        ensures
            self.begins(r, key, ack_wire(msg)),
    {
        let payload = encode_ack(&msg);
        self.raw(key, payload.as_slice())
    }

    /// Starts a call that sets the brightness of the bargraph.
    pub fn set_dimming(&self, key: Key, msg: SetDimming) -> (r: Result<Call, Error>)
        ensures
            self.begins(r, key, set_dimming_wire(msg)),
    {
        let payload = encode_set_dimming(&msg);
        self.raw(key, payload.as_slice())
    }

    /// Starts a call that switches the backlight of the LCD.
    pub fn set_backlight(&self, key: Key, msg: SetBacklight) -> (r: Result<Call, Error>)
        ensures
            self.begins(r, key, set_backlight_wire(msg)),
    {
        let payload = encode_set_backlight(&msg);
        self.raw(key, payload.as_slice())
    }

    /// Starts a call that shows a text on the LCD.
    pub fn send_msg(&self, key: Key, msg: &SendMsg) -> (r: Result<Call, Error>)
        ensures
            self.begins(r, key, text_wire(msg.0@)),
    {
        let payload = encode_text(msg.0.as_str());
        self.raw(key, payload.as_slice())
    }

    /// Starts the call for a request, under the key of its endpoint.
    pub fn call(&self, keys: &EndpointKeys, request: &Request) -> (r: Result<Call, Error>)
        ensures
            self.begins(r, keys.spec_key(request@.endpoint()), request@.wire()),
    {
        match request {
            Request::Echo(m) => self.echo(keys.echo, m),
            Request::SetLed(m) => self.set_led(keys.set_led, *m),
            Request::SetDimming(m) => self.set_dimming(keys.set_dimming, *m),
            Request::Notify(m) => self.notify(keys.notify, *m),
            Request::Ack(m) => self.ack(keys.ack, *m),
            Request::SetBacklight(m) => self.set_backlight(keys.set_backlight, *m),
            Request::SendMsg(m) => self.send_msg(keys.send_msg, m),
        }
    }

    /// Whether `r` is what starting a call with the given key and payload
    /// gives.
    pub open spec fn begins(&self, r: Result<Call, Error>, key: Key, payload: Seq<u8>) -> bool {
        if payload.len() + 12 > 1024 {
            r == Err::<Call, Error>(Error::Parse)
        } else if !self.is_connected() {
            r == Err::<Call, Error>(Error::NotConnected)
        } else {
            r matches Ok(call) && call.wf() && call.key() == key && call.used() == 0
                && call.allowed() == self.allowed() && call.request() == framed(
                WireHeader { key, seq_no: 0 },
                payload,
            )
        }
    }
}

/// Reads the reply of a call that answers with success or refusal.
pub fn read_unit(payload: &[u8], retries: u8) -> (r: Result<ConnHealth<()>, Error>)
    ensures
        r == (match parse_unit_reply(payload@) {
            None => Err::<ConnHealth<()>, Error>(Error::Parse),
            Some((Err(e), _)) => Err::<ConnHealth<()>, Error>(Error::RequestFailed(e)),
            Some((Ok(_), _)) => Ok::<ConnHealth<()>, Error>(ConnHealth((), retries)),
        }),
{
    match decode_unit_reply(payload) {
        Err(_) => Err(Error::Parse),
        Ok(Err(e)) => Err(Error::RequestFailed(e)),
        Ok(Ok(_)) => Ok(ConnHealth((), retries)),
    }
}

/// Reads the reply to a message for the LCD. Whether the text was cut is
/// not passed on.
pub fn read_msg(payload: &[u8], retries: u8) -> (r: Result<ConnHealth<()>, Error>)
    ensures
        r == (match parse_msg_reply(payload@) {
            None => Err::<ConnHealth<()>, Error>(Error::Parse),
            Some((Err(e), _)) => Err::<ConnHealth<()>, Error>(Error::RequestFailed(e)),
            Some((Ok(_), _)) => Ok::<ConnHealth<()>, Error>(ConnHealth((), retries)),
        }),
{
    match decode_msg_reply(payload) {
        Err(_) => Err(Error::Parse),
        Ok(Err(e)) => Err(Error::RequestFailed(e)),
        Ok(Ok(_)) => Ok(ConnHealth((), retries)),
    }
}

/// Reads the reply of an echo call.
pub fn read_echo(payload: &[u8], retries: u8) -> (r: Result<ConnHealth<String>, Error>)
    ensures
        match parse_text(payload@) {
            None => r == Err::<ConnHealth<String>, Error>(Error::Parse),
            Some((text, _)) => r matches Ok(health) && health.0@ == text && health.1 == retries,
        },
{
    match decode_text(payload) {
        Err(_) => Err(Error::Parse),
        Ok(text) => Ok(ConnHealth(text, retries)),
    }
}

/// Reads the reply of a call to `endpoint` where the text of an echo is not
/// wanted.
pub fn read_reply(endpoint: Endpoint, payload: &[u8], retries: u8) -> (r: Result<
    ConnHealth<()>,
    Error,
>)
    ensures
        r == (match endpoint {
            Endpoint::Echo => match parse_text(payload@) {
                None => Err::<ConnHealth<()>, Error>(Error::Parse),
                Some(_) => Ok::<ConnHealth<()>, Error>(ConnHealth((), retries)),
            },
            Endpoint::SendMsg => match parse_msg_reply(payload@) {
                None => Err::<ConnHealth<()>, Error>(Error::Parse),
                Some((Err(e), _)) => Err::<ConnHealth<()>, Error>(Error::RequestFailed(e)),
                Some((Ok(_), _)) => Ok::<ConnHealth<()>, Error>(ConnHealth((), retries)),
            },
            _ => match parse_unit_reply(payload@) {
                None => Err::<ConnHealth<()>, Error>(Error::Parse),
                Some((Err(e), _)) => Err::<ConnHealth<()>, Error>(Error::RequestFailed(e)),
                Some((Ok(_), _)) => Ok::<ConnHealth<()>, Error>(ConnHealth((), retries)),
            },
        }),
{
    match endpoint {
        Endpoint::Echo => match read_echo(payload, retries) {
            Ok(_) => Ok(ConnHealth((), retries)),
            Err(e) => Err(e),
        },
        Endpoint::SendMsg => read_msg(payload, retries),
        _ => read_unit(payload, retries),
    }
}

/// A reply under the header of the request ends the call with the reply's
/// payload; a reply whose sequence number or key differs ends it with
/// `BadResponse`, which names the header that came.
pub proof fn lemma_reply_pairing(call: Call, hdr: WireHeader, payload: Seq<u8>)
    ensures
        call.verdict(framed(hdr, payload)) == (if hdr.seq_no == 0 && hdr.key == call.key() {
            Ok::<(Seq<u8>, u8), Error>((payload, call.used()))
        } else {
            Err::<(Seq<u8>, u8), Error>(
                Error::BadResponse { seq_no: hdr.seq_no, key: hdr.key },
            )
        }),
{
    lemma_frame_parse(hdr, payload);
}

/// The retries used after one more timeout, or `None` where the call ends
/// with `NoResponse` instead.
pub open spec fn on_timeout(used: u8, allowed: u8) -> Option<u8> {
    if used < allowed {
        Some((used + 1) as u8)
    } else {
        None
    }
}

/// The retries used after `k` timeouts in a row, or `None` where the call
/// has ended with `NoResponse` by then.
pub open spec fn timeouts(used: u8, allowed: u8, k: nat) -> Option<u8>
    decreases k,
{
    if k == 0 {
        Some(used)
    } else {
        match on_timeout(used, allowed) {
            Some(next) => timeouts(next, allowed, (k - 1) as nat),
            None => None,
        }
    }
}

/// A call whose first `k` requests are lost has used exactly `k` retries
/// when the reply comes, where `k` is at most the number allowed; where `k`
/// is greater, it has ended with `NoResponse`.
pub proof fn lemma_retry_counter(allowed: u8, k: nat)
    ensures
        timeouts(0, allowed, k) == (if k <= allowed {
            Some(k as u8)
        } else {
            None
        }),
{
    lemma_timeouts(0, allowed, k);
}

/// `k` timeouts add `k` to the retries used as long as the sum stays
/// within the number allowed.
pub proof fn lemma_timeouts(used: u8, allowed: u8, k: nat)
    requires
        used <= allowed,
    ensures
        timeouts(used, allowed, k) == (if used + k <= allowed {
            Some((used + k) as u8)
        } else {
            None
        }),
    decreases k,
{
    if k > 0 && used < allowed {
        lemma_timeouts((used + 1) as u8, allowed, (k - 1) as nat);
    }
}

} // verus!
