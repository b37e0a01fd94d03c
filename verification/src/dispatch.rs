//! The dispatch table: which endpoint a key stands for. It is filled at
//! startup and only read afterwards. `dispatch` takes a datagram apart,
//! finds the endpoint by the key in its header and decodes the payload as
//! that endpoint's request.

use crate::codec::{
    ack_wire, decode_ack, decode_notify, decode_set_backlight, decode_set_dimming, decode_set_led,
    decode_text, lemma_ack_round_trip, lemma_notify_round_trip, lemma_set_backlight_round_trip,
    lemma_set_dimming_round_trip, lemma_set_led_round_trip, lemma_text_round_trip, notify_wire,
    parse_ack, parse_notify, parse_set_backlight, parse_set_dimming, parse_set_led, parse_text,
    set_backlight_wire, set_dimming_wire, set_led_wire, text_wire,
};
use crate::proto::{Ack, Echo, Notify, SendMsg, SetBacklight, SetDimming, SetLed};
use crate::wire::{
    extract_header_from_bytes, framed, header_of, lemma_frame_parse, Key, WireHeader,
};
use vstd::prelude::*;

verus! {

/// Handlers the table holds at most.
pub const CAPACITY: usize = 16;

/// The endpoints of the daemon.
#[derive(Clone, Copy, Debug, PartialEq, Eq, Structural)]
pub enum Endpoint {
    Echo,
    SetLed,
    SetDimming,
    Notify,
    Ack,
    SetBacklight,
    SendMsg,
}

/// The keys of the seven endpoints, each made from the endpoint's path and
/// the shape of its request.
#[derive(Clone, Copy, Debug, PartialEq, Eq, Structural)]
pub struct EndpointKeys {
    pub echo: Key,
    pub set_led: Key,
    pub set_dimming: Key,
    pub notify: Key,
    pub ack: Key,
    pub set_backlight: Key,
    pub send_msg: Key,
}

impl EndpointKeys {
    /// The keys with the endpoint of each, in the order of registration.
    pub open spec fn listed(self) -> Seq<(Key, Endpoint)> {
        seq![
            (self.echo, Endpoint::Echo),
            (self.set_led, Endpoint::SetLed),
            (self.set_dimming, Endpoint::SetDimming),
            (self.notify, Endpoint::Notify),
            (self.ack, Endpoint::Ack),
            (self.set_backlight, Endpoint::SetBacklight),
            (self.send_msg, Endpoint::SendMsg),
        ]
    }

    /// The key of an endpoint.
    pub open spec fn spec_key(self, endpoint: Endpoint) -> Key {
        match endpoint {
            Endpoint::Echo => self.echo,
            Endpoint::SetLed => self.set_led,
            Endpoint::SetDimming => self.set_dimming,
            Endpoint::Notify => self.notify,
            Endpoint::Ack => self.ack,
            Endpoint::SetBacklight => self.set_backlight,
            Endpoint::SendMsg => self.send_msg,
        }
    }

    /// The key of an endpoint.
    #[verifier::when_used_as_spec(spec_key)]
    pub fn key(self, endpoint: Endpoint) -> (k: Key)
        ensures
            k == self.spec_key(endpoint),
    {
        match endpoint {
            Endpoint::Echo => self.echo,
            Endpoint::SetLed => self.set_led,
            Endpoint::SetDimming => self.set_dimming,
            Endpoint::Notify => self.notify,
            Endpoint::Ack => self.ack,
            Endpoint::SetBacklight => self.set_backlight,
            Endpoint::SendMsg => self.send_msg,
        }
    }

    /// No two endpoints share a key.
    pub open spec fn distinct(self) -> bool {
        forall|i: int, j: int|
            0 <= i < j < 7 ==> (#[trigger] self.listed()[i]).0 != (#[trigger] self.listed()[j]).0
    }
}

/// A decoded request.
#[derive(Clone, Debug, PartialEq, Eq)]
pub enum Request {
    Echo(Echo),
    SetLed(SetLed),
    SetDimming(SetDimming),
    Notify(Notify),
    Ack(Ack),
    SetBacklight(SetBacklight),
    SendMsg(SendMsg),
}

/// A request with its texts as sequences of characters.
pub ghost enum RequestView {
    Echo(Seq<char>),
    SetLed(SetLed),
    SetDimming(SetDimming),
    Notify(Notify),
    Ack(Ack),
    SetBacklight(SetBacklight),
    SendMsg(Seq<char>),
}

impl View for Request {
    type V = RequestView;

    open spec fn view(&self) -> RequestView {
        match self {
            Request::Echo(m) => RequestView::Echo(m.0@),
            Request::SetLed(m) => RequestView::SetLed(*m),
            Request::SetDimming(m) => RequestView::SetDimming(*m),
            Request::Notify(m) => RequestView::Notify(*m),
            Request::Ack(m) => RequestView::Ack(*m),
            Request::SetBacklight(m) => RequestView::SetBacklight(*m),
            Request::SendMsg(m) => RequestView::SendMsg(m.0@),
        }
    }
}

impl Request {
    /// The endpoint that takes this request.
    pub fn endpoint(&self) -> (e: Endpoint)
        ensures
            e == self@.endpoint(),
    {
        match self {
            Request::Echo(_) => Endpoint::Echo,
            Request::SetLed(_) => Endpoint::SetLed,
            Request::SetDimming(_) => Endpoint::SetDimming,
            Request::Notify(_) => Endpoint::Notify,
            Request::Ack(_) => Endpoint::Ack,
            Request::SetBacklight(_) => Endpoint::SetBacklight,
            Request::SendMsg(_) => Endpoint::SendMsg,
        }
    }
}

/// Why a handler could not be added.
#[derive(Clone, Copy, Debug, PartialEq, Eq, Structural)]
pub enum RegisterError {
    /// The table holds `CAPACITY` handlers already.
    TableFull,
    /// The key is in the table already.
    DuplicateKey,
}

impl RegisterError {
    /// The short word for this failure.
    pub fn reason(&self) -> (s: &'static str)
        ensures
            s@ == (match self {
                RegisterError::TableFull => "full"@,
                RegisterError::DuplicateKey => "dupe"@,
            }),
    {
        match self {
            RegisterError::TableFull => "full",
            RegisterError::DuplicateKey => "dupe",
        }
    }
}

/// Why a datagram was not dispatched.
#[derive(Clone, Copy, Debug, PartialEq, Eq, Structural)]
pub enum DispatchError {
    /// The datagram is shorter than a header, or its payload is not a
    /// request of the endpoint that its key names.
    Parse,
    /// No handler is registered for the key.
    NoMatch { key: Key, seq_no: u32 },
}

/// The request that `payload` holds for `endpoint`, if it holds one.
pub open spec fn parse_request(endpoint: Endpoint, payload: Seq<u8>) -> Option<RequestView> {
    match endpoint {
        Endpoint::Echo => match parse_text(payload) {
            Some((s, _)) => Some(RequestView::Echo(s)),
            None => None,
        },
        Endpoint::SetLed => match parse_set_led(payload) {
            Some((m, _)) => Some(RequestView::SetLed(m)),
            None => None,
        },
        Endpoint::SetDimming => match parse_set_dimming(payload) {
            Some((m, _)) => Some(RequestView::SetDimming(m)),
            None => None,
        },
        Endpoint::Notify => match parse_notify(payload) {
            Some((m, _)) => Some(RequestView::Notify(m)),
            None => None,
        },
        Endpoint::Ack => match parse_ack(payload) {
            Some((m, _)) => Some(RequestView::Ack(m)),
            None => None,
        },
        Endpoint::SetBacklight => match parse_set_backlight(payload) {
            Some((m, _)) => Some(RequestView::SetBacklight(m)),
            None => None,
        },
        Endpoint::SendMsg => match parse_text(payload) {
            Some((s, _)) => Some(RequestView::SendMsg(s)),
            None => None,
        },
    }
}

/// Decodes `payload` as the request of `endpoint`.
pub fn decode_request(endpoint: Endpoint, payload: &[u8]) -> (r: Option<Request>)
    ensures
        match parse_request(endpoint, payload@) {
            Some(v) => r is Some && r->Some_0@ == v,
            None => r is None,
        },
{
    match endpoint {
        Endpoint::Echo => match decode_text(payload) {
            Ok(s) => Some(Request::Echo(Echo(s))),
            Err(_) => None,
        },
        Endpoint::SetLed => match decode_set_led(payload) {
            Ok(m) => Some(Request::SetLed(m)),
            Err(_) => None,
        },
        Endpoint::SetDimming => match decode_set_dimming(payload) {
            Ok(m) => Some(Request::SetDimming(m)),
            Err(_) => None,
        },
        Endpoint::Notify => match decode_notify(payload) {
            Ok(m) => Some(Request::Notify(m)),
            Err(_) => None,
        },
        Endpoint::Ack => match decode_ack(payload) {
            Ok(m) => Some(Request::Ack(m)),
            Err(_) => None,
        },
        Endpoint::SetBacklight => match decode_set_backlight(payload) {
            Ok(m) => Some(Request::SetBacklight(m)),
            Err(_) => None,
        },
        Endpoint::SendMsg => match decode_text(payload) {
            Ok(s) => Some(Request::SendMsg(SendMsg(s))),
            Err(_) => None,
        },
    }
}

/// The table of handlers, keyed by endpoint key.
pub struct Dispatch {
    items: Vec<(Key, Endpoint)>,
}

/// The endpoint of the first entry with the given key.
pub open spec fn find(items: Seq<(Key, Endpoint)>, key: Key) -> Option<Endpoint>
    decreases items.len(),
{
    if items.len() == 0 {
        None
    } else if items[0].0 == key {
        Some(items[0].1)
    } else {
        find(items.skip(1), key)
    }
}

/// `find` sees an entry exactly when one with that key is in the list.
pub proof fn lemma_find(items: Seq<(Key, Endpoint)>, key: Key)
    ensures
        find(items, key) is Some <==> exists|i: int|
            0 <= i < items.len() && (#[trigger] items[i]).0 == key,
        find(items, key) matches Some(e) ==> exists|i: int|
            0 <= i < items.len() && #[trigger] items[i] == (key, e),
    decreases items.len(),
{
    if items.len() == 0 {
    } else if items[0].0 == key {
        assert(items[0] == (key, items[0].1));
    } else {
        lemma_find(items.skip(1), key);
        if find(items.skip(1), key) is Some {
            let e = find(items.skip(1), key)->Some_0;
            let rest = items.skip(1);
            let i = choose|i: int| 0 <= i < rest.len() && #[trigger] rest[i] == (key, e);
            assert(items[i + 1] == (key, e));
        }
        if exists|i: int| 0 <= i < items.len() && (#[trigger] items[i]).0 == key {
            let i = choose|i: int| 0 <= i < items.len() && (#[trigger] items[i]).0 == key;
            assert(items.skip(1)[i - 1].0 == key);
        }
    }
}

impl Dispatch {
    /// The entries in the order in which they were added.
    pub closed spec fn entries(&self) -> Seq<(Key, Endpoint)> {
        self.items@
    }

    /// No more than `CAPACITY` entries, and no key twice.
    pub open spec fn wf(&self) -> bool {
        &&& self.entries().len() <= CAPACITY
        &&& forall|i: int, j: int|
            0 <= i < j < self.entries().len() ==> (#[trigger] self.entries()[i]).0
                != (#[trigger] self.entries()[j]).0
    }

    /// The endpoint registered for `key`.
    pub open spec fn handler(&self, key: Key) -> Option<Endpoint> {
        find(self.entries(), key)
    }

    /// The outcome of dispatching a datagram.
    pub open spec fn outcome(&self, bytes: Seq<u8>) -> Result<
        (WireHeader, RequestView),
        DispatchError,
    > {
        if bytes.len() < 12 {
            Err(DispatchError::Parse)
        } else {
            let hdr = header_of(bytes);
            match self.handler(hdr.key) {
                None => Err(DispatchError::NoMatch { key: hdr.key, seq_no: hdr.seq_no }),
                Some(endpoint) => match parse_request(endpoint, bytes.skip(12)) {
                    Some(v) => Ok((hdr, v)),
                    None => Err(DispatchError::Parse),
                },
            }
        }
    }

    /// An empty table.
    pub fn new() -> (d: Dispatch)
        ensures
            d.wf(),
            d.entries() == Seq::<(Key, Endpoint)>::empty(),
    {
        Dispatch { items: Vec::new() }
    }

    /// Number of handlers in the table.
    pub fn len(&self) -> (n: usize)
        ensures
            n == self.entries().len(),
    {
        self.items.len()
    }

    /// The endpoint registered for `key`, if any.
    pub fn lookup(&self, key: Key) -> (r: Option<Endpoint>)
        ensures
            r == self.handler(key),
    {
        let mut i: usize = 0;
        assert(self.items@.skip(0) =~= self.items@);
        while i < self.items.len()
            invariant
                i <= self.items@.len(),
                find(self.items@, key) == find(self.items@.skip(i as int), key),
            decreases self.items@.len() - i,
        {
            let (k, e) = self.items[i];
            assert(self.items@.skip(i as int)[0] == self.items@[i as int]);
            if k == key {
                return Some(e);
            }
            assert(self.items@.skip(i as int).skip(1) =~= self.items@.skip(i + 1));
            i += 1;
        }
        None
    }

    /// Adds the handler of `endpoint` under `key`. Fails with `TableFull` where
    /// the table holds `CAPACITY` handlers, else with `DuplicateKey` where the key
    /// is in it already; the table is then unchanged.
    pub fn add_handler(&mut self, key: Key, endpoint: Endpoint) -> (r: Result<(), RegisterError>)
        requires
            old(self).wf(),
        ensures
            final(self).wf(),
            r == (if old(self).entries().len() >= CAPACITY {
                Err::<(), RegisterError>(RegisterError::TableFull)
            } else if old(self).handler(key) is Some {
                Err::<(), RegisterError>(RegisterError::DuplicateKey)
            } else {
                Ok::<(), RegisterError>(())
            }),
            r is Ok ==> final(self).entries() == old(self).entries().push((key, endpoint)),
            r is Err ==> final(self).entries() == old(self).entries(),
    {
        if self.items.len() >= CAPACITY {
            return Err(RegisterError::TableFull);
        }
        if self.lookup(key).is_some() {
            return Err(RegisterError::DuplicateKey);
        }
        proof {
            lemma_find(self.items@, key);
        }
        self.items.push((key, endpoint));
        Ok(())
    }

    /// Takes a datagram apart and decodes its request. Fails with `Parse`
    /// where the datagram is shorter than a header, with `NoMatch` where
    /// no handler is registered for its key, and with `Parse` where the
    /// payload is not a request of the endpoint found.
    pub fn dispatch(&self, bytes: &[u8]) -> (r: Result<(WireHeader, Request), DispatchError>)
        ensures
            match self.outcome(bytes@) {
                Ok((hdr, v)) => r is Ok && r->Ok_0.0 == hdr && r->Ok_0.1@ == v,
                Err(e) => r is Err && r->Err_0 == e,
            },
    {
        let (hdr, payload) = match extract_header_from_bytes(bytes) {
            Ok(parts) => parts,
            Err(_) => {
                return Err(DispatchError::Parse);
            },
        };
        let endpoint = match self.lookup(hdr.key) {
            Some(e) => e,
            None => {
                return Err(DispatchError::NoMatch { key: hdr.key, seq_no: hdr.seq_no });
            },
        };
        match decode_request(endpoint, payload) {
            Some(request) => Ok((hdr, request)),
            None => Err(DispatchError::Parse),
        }
    }
}

/// After a handler was added under a key, that key finds it, and every
/// other key finds what it found before.
pub proof fn lemma_added_is_found(
    items: Seq<(Key, Endpoint)>,
    key: Key,
    endpoint: Endpoint,
    other: Key,
)
    requires
        find(items, key) is None,
    ensures
        find(items.push((key, endpoint)), key) == Some(endpoint),
        other != key ==> find(items.push((key, endpoint)), other) == find(items, other),
    decreases items.len(),
{
    let grown = items.push((key, endpoint));
    if items.len() == 0 {
        assert(grown[0] == (key, endpoint));
        assert(grown.skip(1) =~= Seq::<(Key, Endpoint)>::empty());
        assert(find(grown.skip(1), other) is None);
    } else {
        assert(grown[0] == items[0]);
        assert(grown.skip(1) =~= items.skip(1).push((key, endpoint)));
        lemma_added_is_found(items.skip(1), key, endpoint, other);
    }
}

impl RequestView {
    /// The endpoint that takes this request.
    pub open spec fn endpoint(self) -> Endpoint {
        match self {
            RequestView::Echo(_) => Endpoint::Echo,
            RequestView::SetLed(_) => Endpoint::SetLed,
            RequestView::SetDimming(_) => Endpoint::SetDimming,
            RequestView::Notify(_) => Endpoint::Notify,
            RequestView::Ack(_) => Endpoint::Ack,
            RequestView::SetBacklight(_) => Endpoint::SetBacklight,
            RequestView::SendMsg(_) => Endpoint::SendMsg,
        }
    }

    /// The payload that stands for this request.
    pub open spec fn wire(self) -> Seq<u8> {
        match self {
            RequestView::Echo(text) => text_wire(text),
            RequestView::SetLed(m) => set_led_wire(m),
            RequestView::SetDimming(m) => set_dimming_wire(m),
            RequestView::Notify(m) => notify_wire(m),
            RequestView::Ack(m) => ack_wire(m),
            RequestView::SetBacklight(m) => set_backlight_wire(m),
            RequestView::SendMsg(text) => text_wire(text),
        }
    }
}

/// A request that is framed under the key of its endpoint comes out of
/// `dispatch` as it went in, with the header it was sent under.
pub proof fn lemma_dispatch_round_trip(table: Dispatch, hdr: WireHeader, request: RequestView)
    requires
        table.handler(hdr.key) == Some(request.endpoint()),
        request.wire().len() < 0x1_0000_0000_0000_0000,
    ensures
        table.outcome(framed(hdr, request.wire())) == Ok::<
            (WireHeader, RequestView),
            DispatchError,
        >((hdr, request)),
{
    let payload = request.wire();
    let none = Seq::<u8>::empty();
    lemma_frame_parse(hdr, payload);
    assert(payload + none =~= payload);
    match request {
        RequestView::Echo(text) => lemma_text_round_trip(text, none),
        RequestView::SetLed(m) => lemma_set_led_round_trip(m, none),
        RequestView::SetDimming(m) => lemma_set_dimming_round_trip(m, none),
        RequestView::Notify(m) => lemma_notify_round_trip(m, none),
        RequestView::Ack(m) => lemma_ack_round_trip(m, none),
        RequestView::SetBacklight(m) => lemma_set_backlight_round_trip(m, none),
        RequestView::SendMsg(text) => lemma_text_round_trip(text, none),
    }
}

} // verus!
