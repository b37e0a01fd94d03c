//! The server's decisions. For each request a handler plans what is to be
//! done on which device; once the device has answered, `respond` builds
//! the reply under the request's own header and names the signal for the
//! blinker. Sockets, locks and the devices themselves belong to the
//! caller.

use crate::bargraph::{applied, changes, led_updates, set_led_no, Cell, CellUpdate, Panel};
use crate::blink::BlinkInfo;
use crate::codec::{
    encode_msg_reply, encode_text, encode_unit_reply, msg_reply_wire, text_wire, unit_reply_wire,
};
use crate::dispatch::{
    Dispatch, Endpoint, EndpointKeys, RegisterError, Request, RequestView,
};
use crate::lcd::{msg_ops, msg_status, write_msg, LcdOp};
use crate::proto::{
    Ack, Device, Driver, Echo, LedColor, MsgStatus, Notify, RequestError, SendMsg, SetBacklight,
    SetDimming, SetLed,
};
use crate::wire::{framed, header_of, lemma_frame_parse, to_vec_keyed, Key, WireHeader};
use vstd::prelude::*;

verus! {

/// The port the daemon binds where none is given.
pub const DEFAULT_PORT: u16 = 12000;

/// Brightness of the bargraph after startup, in sixteenths.
pub const STARTUP_BRIGHTNESS: u8 = 3;

/// Requests the blinker's channel holds.
pub const BLINK_CHANNEL_CAPACITY: usize = 1;

/// The upper-case form of a text, as `str::to_uppercase` of std gives it.
pub uninterp spec fn uppercased(s: Seq<char>) -> Seq<char>;

/// `str::to_uppercase` of std. Taken on trust: the result depends on the
/// text alone, and is what `uppercased` names for it.
#[verifier::external_body]
fn to_uppercase(s: &str) -> (r: String)
    ensures
        r@ == uppercased(s@),
{
    s.to_uppercase()
}

/// What is to be done on a device for one request.
#[derive(Clone, Debug, PartialEq, Eq)]
pub enum DeviceCall {
    /// No device is involved.
    Nothing,
    /// The request is refused before any device is touched.
    Refused,
    /// Bargraph: apply the changes to the display buffer in order, then
    /// write the buffer out.
    Cells(Vec<CellUpdate>),
    /// Bargraph: clear the display buffer, then write it out.
    ClearAll,
    /// Bargraph: set the brightness, in sixteenths.
    Dimming(u8),
    /// LCD: switch the backlight on or off.
    Backlight(bool),
    /// LCD: send the commands in order.
    Lcd(Vec<LcdOp>),
}

/// What the reply carries when the device did its part.
#[derive(Clone, Debug, PartialEq, Eq)]
pub enum Reply {
    Text(String),
    Unit,
    Msg(MsgStatus),
}

/// The plan for one request.
#[derive(Clone, Debug, PartialEq, Eq)]
pub struct Plan {
    pub call: DeviceCall,
    pub reply: Reply,
    /// What the blinker is told once the reply is sent.
    pub signal: Option<BlinkInfo>,
}

/// What is done once the device has answered: the datagram is sent to the
/// peer first, then the blinker is signalled.
#[derive(Clone, Debug, PartialEq, Eq)]
pub struct Effects {
    /// The reply, or `None` where it does not fit in a datagram and is
    /// dropped.
    pub send: Option<Vec<u8>>,
    pub signal: Option<BlinkInfo>,
}

impl DeviceCall {
    /// The device this call goes to.
    pub open spec fn device(&self) -> Option<Driver> {
        match self {
            DeviceCall::Nothing | DeviceCall::Refused => None,
            DeviceCall::Cells(_) | DeviceCall::ClearAll | DeviceCall::Dimming(_) => Some(
                Driver::Bargraph,
            ),
            DeviceCall::Backlight(_) | DeviceCall::Lcd(_) => Some(Driver::Hd44780),
        }
    }

    /// The device this call goes to, if any.
    pub fn target(&self) -> (d: Option<Driver>)
        ensures
            d == self.device(),
    {
        match self {
            DeviceCall::Nothing | DeviceCall::Refused => None,
            DeviceCall::Cells(_) | DeviceCall::ClearAll | DeviceCall::Dimming(_) => Some(
                Driver::Bargraph,
            ),
            DeviceCall::Backlight(_) | DeviceCall::Lcd(_) => Some(Driver::Hd44780),
        }
    }
}

/// The bargraph call that shows `color` on LED `num`: refused for a number
/// above 23, else the buffer changes of that LED.
pub open spec fn paints(call: DeviceCall, num: u8, color: LedColor) -> bool {
    if num > 23 {
        call is Refused
    } else {
        call matches DeviceCall::Cells(updates) && changes(updates@) == led_updates(num, color)
    }
}

fn paint(num: u8, color: LedColor) -> (call: DeviceCall)
    ensures
        paints(call, num, color),
{
    match set_led_no(num, color) {
        Ok(updates) => DeviceCall::Cells(updates),
        Err(_) => DeviceCall::Refused,
    }
}

/// The plan of an echo, given the text in upper case: no device, no signal,
/// and the text as the reply.
pub fn echo_with(upper: String) -> (p: Plan)
    ensures
        p.call is Nothing,
        p.reply == Reply::Text(upper),
        p.signal is None,
{
    Plan { call: DeviceCall::Nothing, reply: Reply::Text(upper), signal: None }
}

/// Echo: no device; the reply is the text in upper case.
pub fn echo(msg: &Echo) -> (p: Plan)
    ensures
        p.call is Nothing,
        p.reply matches Reply::Text(s) && s@ == uppercased(msg.0@),
        p.signal is None,
{
    echo_with(to_uppercase(msg.0.as_str()))
}

/// SetLed: paints the LED in the given color; a number above 23 is refused
/// without touching the device.
pub fn set_led(msg: SetLed) -> (p: Plan)
    ensures
        paints(p.call, msg.num, msg.color),
        p.reply is Unit,
        p.signal is None,
{
    Plan { call: paint(msg.num, msg.color), reply: Reply::Unit, signal: None }
}

/// SetDimming: `Lo` is 3/16 of full brightness, `Hi` 16/16.
pub fn set_dimming(msg: SetDimming) -> (p: Plan)
    ensures
        p.call == DeviceCall::Dimming(msg.sixteenths()),
        p.reply is Unit,
        p.signal is None,
{
    Plan {
        call: DeviceCall::Dimming(crate::bargraph::set_dimming(msg)),
        reply: Reply::Unit,
        signal: None,
    }
}

/// Notify: paints the LED in the color of the status, then tells the
/// blinker that an LED was set.
pub fn notify(msg: Notify) -> (p: Plan)
    ensures
        paints(p.call, msg.num, msg.status.spec_color()),
        p.reply is Unit,
        p.signal == Some(BlinkInfo::LedSet),
{
    Plan {
        call: paint(msg.num, msg.status.color()),
        reply: Reply::Unit,
        signal: Some(BlinkInfo::LedSet),
    }
}

/// Ack: switches the given LED off, or all LEDs where none is given, then
/// tells the blinker that an LED was cleared, whether or not others are
/// still lit.
pub fn ack(msg: Ack) -> (p: Plan)
    ensures
        match msg.num {
            Some(num) => paints(p.call, num, LedColor::Off),
            None => p.call is ClearAll,
        },
        p.reply is Unit,
        p.signal == Some(BlinkInfo::LedClear),
{
    let call = match msg.num {
        Some(num) => paint(num, LedColor::Off),
        None => DeviceCall::ClearAll,
    };
    Plan { call, reply: Reply::Unit, signal: Some(BlinkInfo::LedClear) }
}

/// SetBacklight: switches the backlight of the LCD.
pub fn set_backlight(msg: SetBacklight) -> (p: Plan)
    ensures
        p.call == DeviceCall::Backlight(msg.lit()),
        p.reply is Unit,
        p.signal is None,
{
    Plan {
        call: DeviceCall::Backlight(crate::lcd::set_backlight(msg)),
        reply: Reply::Unit,
        signal: None,
    }
}

/// SendMsg: shows the text on the LCD; the reply says whether it was cut.
pub fn send_msg(msg: &SendMsg) -> (p: Plan)
    ensures
        p.call matches DeviceCall::Lcd(ops) && ops@ == msg_ops(msg.0@),
        p.reply == Reply::Msg(msg_status(msg.0@)),
        p.signal is None,
{
    let (ops, status) = write_msg(msg.0.as_str());
    Plan { call: DeviceCall::Lcd(ops), reply: Reply::Msg(status), signal: None }
}

/// Whether `p` is the plan of the handler for `request`.
pub open spec fn plan_for(request: RequestView, p: Plan) -> bool {
    match request {
        RequestView::Echo(text) => {
            &&& p.call is Nothing
            &&& p.reply matches Reply::Text(s) && s@ == uppercased(text)
            &&& p.signal is None
        },
        RequestView::SetLed(m) => {
            &&& paints(p.call, m.num, m.color)
            &&& p.reply is Unit
            &&& p.signal is None
        },
        RequestView::SetDimming(m) => {
            &&& p.call == DeviceCall::Dimming(m.sixteenths())
            &&& p.reply is Unit
            &&& p.signal is None
        },
        RequestView::Notify(m) => {
            &&& paints(p.call, m.num, m.status.spec_color())
            &&& p.reply is Unit
            &&& p.signal == Some(BlinkInfo::LedSet)
        },
        RequestView::Ack(m) => {
            &&& match m.num {
                Some(num) => paints(p.call, num, LedColor::Off),
                None => p.call is ClearAll,
            }
            &&& p.reply is Unit
            &&& p.signal == Some(BlinkInfo::LedClear)
        },
        RequestView::SetBacklight(m) => {
            &&& p.call == DeviceCall::Backlight(m.lit())
            &&& p.reply is Unit
            &&& p.signal is None
        },
        RequestView::SendMsg(text) => {
            &&& p.call matches DeviceCall::Lcd(ops) && ops@ == msg_ops(text)
            &&& p.reply == Reply::Msg(msg_status(text))
            &&& p.signal is None
        },
    }
}

/// Hands a decoded request to its handler.
pub fn handle(request: &Request) -> (p: Plan)
    ensures
        plan_for(request@, p),
{
    match request {
        Request::Echo(m) => echo(m),
        Request::SetLed(m) => set_led(*m),
        Request::SetDimming(m) => set_dimming(*m),
        Request::Notify(m) => notify(*m),
        Request::Ack(m) => ack(*m),
        Request::SetBacklight(m) => set_backlight(*m),
        Request::SendMsg(m) => send_msg(m),
    }
}

/// The lit cells after a call that the bargraph carried out: those after
/// the changes of the call, none after clearing; any other call leaves them
/// as they are.
pub open spec fn lit_after(lit: Set<Cell>, call: DeviceCall) -> Set<Cell> {
    match call {
        DeviceCall::Cells(updates) => applied(lit, changes(updates@)),
        DeviceCall::ClearAll => Set::empty(),
        _ => lit,
    }
}

/// Carries a call out on a picture of the display buffer.
pub fn mirror(panel: &mut Panel, call: &DeviceCall)
    requires
        old(panel).wf(),
    ensures
        final(panel).wf(),
        final(panel).lit() == lit_after(old(panel).lit(), *call),
{
    match call {
        DeviceCall::Cells(updates) => panel.apply(updates.as_slice()),
        DeviceCall::ClearAll => panel.clear_all(),
        _ => {},
    }
}

/// Whether the request counts as done: the device did its part and the
/// request was not refused beforehand.
pub open spec fn succeeded(call: DeviceCall, device_ok: bool) -> bool {
    device_ok && !(call is Refused)
}

/// The payload of the reply.
pub open spec fn reply_payload(reply: Reply, ok: bool) -> Seq<u8> {
    match reply {
        Reply::Text(s) => text_wire(s@),
        Reply::Unit => unit_reply_wire(
            if ok {
                Ok(())
            } else {
                Err(RequestError {  })
            },
        ),
        Reply::Msg(status) => msg_reply_wire(
            if ok {
                Ok(status)
            } else {
                Err(RequestError {  })
            },
        ),
    }
}

/// What follows the device's answer to a planned call. `device_ok` says
/// whether the device did its part; it is not looked at where the plan
/// involves no device. The reply goes out under the header of the request
/// and is dropped where it would not fit in a datagram; the signal is
/// given either way.
pub fn respond(hdr: WireHeader, plan: &Plan, device_ok: bool) -> (e: Effects)
    ensures
        e.signal == plan.signal,
        ({
            let payload = reply_payload(plan.reply, succeeded(plan.call, device_ok));
            if payload.len() + 12 > 1024 {
                e.send is None
            } else {
                e.send matches Some(d) && d@ == framed(hdr, payload) && header_of(d@) == hdr
            }
        }),
{
    let ok = device_ok && !matches!(plan.call, DeviceCall::Refused);
    let payload: Vec<u8> = match &plan.reply {
        Reply::Text(s) => encode_text(s.as_str()),
        Reply::Unit => encode_unit_reply(
            &(if ok {
                Ok(())
            } else {
                Err(RequestError {  })
            }),
        ),
        Reply::Msg(status) => encode_msg_reply(
            &(if ok {
                Ok(*status)
            } else {
                Err(RequestError {  })
            }),
        ),
    };
    proof {
        lemma_frame_parse(hdr, payload@);
    }
    let send = match to_vec_keyed(hdr.seq_no, hdr.key, payload.as_slice()) {
        Ok(d) => Some(d),
        Err(_) => None,
    };
    Effects { send, signal: plan.signal }
}

/// Why the server failed to start.
#[derive(Clone, Copy, Debug, PartialEq, Eq, Structural)]
pub enum InitError {
    /// The driver could not talk to its device.
    Driver(Driver),
    /// The dispatch table could not be filled.
    Dispatch(RegisterError),
}

/// Why the server stopped, or why a datagram was dropped.
#[derive(Clone, Copy, Debug, PartialEq, Eq, Structural)]
pub enum Error {
    /// The socket or the bus failed.
    Io,
    Init(InitError),
    Parse,
    NoMatch { key: Key, seq_no: u32 },
}

impl Error {
    /// The text shown for this error, without the values it carries.
    pub fn message(&self) -> (s: &'static str)
        ensures
            s@ == (match self {
                Error::Io => "io error"@,
                Error::Init(_) => "initialization error"@,
                Error::Parse => "error deserializing postcard message"@,
                Error::NoMatch { .. } => "cannot dispatch datagram: no handler for its key"@,
            }),
    {
        match self {
            Error::Io => "io error",
            Error::Init(_) => "initialization error",
            Error::Parse => "error deserializing postcard message",
            Error::NoMatch { .. } => "cannot dispatch datagram: no handler for its key",
        }
    }

    /// The server's error for a datagram that was not dispatched.
    pub fn from_dispatch(e: crate::dispatch::DispatchError) -> (r: Error)
        ensures
            r == (match e {
                crate::dispatch::DispatchError::Parse => Error::Parse,
                crate::dispatch::DispatchError::NoMatch { key, seq_no } => Error::NoMatch {
                    key,
                    seq_no,
                },
            }),
    {
        match e {
            crate::dispatch::DispatchError::Parse => Error::Parse,
            crate::dispatch::DispatchError::NoMatch { key, seq_no } => Error::NoMatch {
                key,
                seq_no,
            },
        }
    }
}

impl InitError {
    /// The text shown for this error.
    pub fn message(&self) -> (s: &'static str)
        ensures
            s@ == (match self {
                InitError::Driver(Driver::Bargraph) => "driver bargraph could not communicate with device"@,
                InitError::Driver(Driver::Hd44780) => "driver lcd could not communicate with device"@,
                InitError::Dispatch(_) => "dispatch table failed to initialize"@,
            }),
    {
        match self {
            InitError::Driver(Driver::Bargraph) => "driver bargraph could not communicate with device",
            InitError::Driver(Driver::Hd44780) => "driver lcd could not communicate with device",
            InitError::Dispatch(_) => "dispatch table failed to initialize",
        }
    }
}

/// What startup does for one configured device.
#[derive(Clone, Copy, Debug, PartialEq, Eq, Structural)]
pub enum StartupStep {
    /// Initialize the bargraph at `addr`, switch its display on, set its
    /// brightness, and start its blinker.
    Bargraph { addr: u8, brightness: u8 },
    /// Create and initialize the LCD at `addr`.
    Lcd { addr: u8 },
}

/// The step for one device.
pub open spec fn step_for(device: Device) -> StartupStep {
    match device.driver {
        Driver::Bargraph => StartupStep::Bargraph { addr: device.addr, brightness: 3 },
        Driver::Hd44780 => StartupStep::Lcd { addr: device.addr },
    }
}

/// The bus addresses of the devices that requests are served on.
#[derive(Clone, Copy, Debug, PartialEq, Eq)]
pub struct Sensors {
    pub bargraph: Option<u8>,
    pub lcd: Option<u8>,
}

/// The address of the last of the first `n` devices that has the given
/// driver.
pub open spec fn last_with(devices: Seq<Device>, driver: Driver, n: nat) -> Option<u8>
    decreases n,
{
    if n == 0 || n > devices.len() {
        None
    } else if devices[n - 1].driver == driver {
        Some(devices[n - 1].addr)
    } else {
        last_with(devices, driver, (n - 1) as nat)
    }
}

impl Default for Sensors {
    fn default() -> (s: Sensors)
        ensures
            s.bargraph is None,
            s.lcd is None,
    {
        Sensors::new()
    }
}

impl Sensors {
    /// No device attached.
    pub fn new() -> (s: Sensors)
        ensures
            s.bargraph is None,
            s.lcd is None,
    {
        Sensors { bargraph: None, lcd: None }
    }

    /// Whether a device with the given driver is attached.
    pub fn has(&self, driver: Driver) -> (b: bool)
        ensures
            b == (match driver {
                Driver::Bargraph => self.bargraph is Some,
                Driver::Hd44780 => self.lcd is Some,
            }),
    {
        match driver {
            Driver::Bargraph => self.bargraph.is_some(),
            Driver::Hd44780 => self.lcd.is_some(),
        }
    }
}

/// The daemon's configuration: the port to bind and the devices to drive.
pub struct Server {
    port: u16,
    devices: Vec<Device>,
}

impl Server {
    /// The port to bind.
    pub closed spec fn spec_port(&self) -> u16 {
        self.port
    }

    /// The configured devices, in the order of the configuration.
    pub closed spec fn spec_devices(&self) -> Seq<Device> {
        self.devices@
    }

    /// A server for the given port and devices.
    pub fn new(port: u16, devices: Vec<Device>) -> (s: Server)
        ensures
            s.spec_port() == port,
            s.spec_devices() == devices@,
    {
        Server { port, devices }
    }

    /// The port to bind.
    pub fn port(&self) -> (p: u16)
        ensures
            p == self.spec_port(),
    {
        self.port
    }

    /// The startup steps, one for each configured device, in the order of
    /// the configuration.
    pub fn startup(&self) -> (steps: Vec<StartupStep>)
        ensures
            steps@ == self.spec_devices().map_values(|d: Device| step_for(d)),
    {
        let mut steps: Vec<StartupStep> = Vec::new();
        let mut i: usize = 0;
        while i < self.devices.len()
            invariant
                i <= self.devices@.len(),
                steps@ == self.devices@.take(i as int).map_values(|d: Device| step_for(d)),
            decreases self.devices@.len() - i,
        {
            let step = match self.devices[i].driver {
                Driver::Bargraph => StartupStep::Bargraph {
                    addr: self.devices[i].addr,
                    brightness: STARTUP_BRIGHTNESS,
                },
                Driver::Hd44780 => StartupStep::Lcd { addr: self.devices[i].addr },
            };
            steps.push(step);
            assert(steps@ =~= self.devices@.take(i + 1).map_values(|d: Device| step_for(d)));
            i += 1;
        }
        assert(self.devices@.take(i as int) =~= self.devices@);
        steps
    }

    /// The devices that requests are served on once every startup step has
    /// succeeded: of several devices with one driver, the last.
    pub fn sensors(&self) -> (s: Sensors)
        ensures
            s.bargraph == last_with(
                self.spec_devices(),
                Driver::Bargraph,
                self.spec_devices().len(),
            ),
            s.lcd == last_with(self.spec_devices(), Driver::Hd44780, self.spec_devices().len()),
    {
        let mut s = Sensors::new();
        let mut i: usize = 0;
        while i < self.devices.len()
            invariant
                i <= self.devices@.len(),
                s.bargraph == last_with(self.devices@, Driver::Bargraph, i as nat),
                s.lcd == last_with(self.devices@, Driver::Hd44780, i as nat),
            decreases self.devices@.len() - i,
        {
            match self.devices[i].driver {
                Driver::Bargraph => {
                    s.bargraph = Some(self.devices[i].addr);
                },
                Driver::Hd44780 => {
                    s.lcd = Some(self.devices[i].addr);
                },
            }
            i += 1;
        }
        s
    }

    /// The error with which the server gives up when a startup step fails.
    pub fn init_failure(step: StartupStep) -> (e: Error)
        ensures
            e == (match step {
                StartupStep::Bargraph { .. } => Error::Init(InitError::Driver(Driver::Bargraph)),
                StartupStep::Lcd { .. } => Error::Init(InitError::Driver(Driver::Hd44780)),
            }),
    {
        match step {
            StartupStep::Bargraph { .. } => Error::Init(InitError::Driver(Driver::Bargraph)),
            StartupStep::Lcd { .. } => Error::Init(InitError::Driver(Driver::Hd44780)),
        }
    }

    /// Fills the dispatch table with the seven handlers. Fails with the
    /// reason `DuplicateKey` exactly when two endpoints share a key.
    pub fn table(keys: &EndpointKeys) -> (r: Result<Dispatch, Error>)
        ensures
            keys.distinct() <==> r is Ok,
            r is Ok ==> r->Ok_0.wf() && r->Ok_0.entries() == keys.listed(),
            r is Err ==> r->Err_0 == Error::Init(InitError::Dispatch(RegisterError::DuplicateKey)),
    {
        let mut d = Dispatch::new();
        let listed: [(Key, Endpoint); 7] = [
            (keys.echo, Endpoint::Echo),
            (keys.set_led, Endpoint::SetLed),
            (keys.set_dimming, Endpoint::SetDimming),
            (keys.notify, Endpoint::Notify),
            (keys.ack, Endpoint::Ack),
            (keys.set_backlight, Endpoint::SetBacklight),
            (keys.send_msg, Endpoint::SendMsg),
        ];
        assert(listed@ =~= keys.listed());
        let mut i: usize = 0;
        while i < 7
            invariant
                i <= 7,
                d.wf(),
                listed@ == keys.listed(),
                d.entries() == keys.listed().take(i as int),
            decreases 7 - i,
        {
            let (key, endpoint) = listed[i];
            proof {
                crate::dispatch::lemma_find(d.entries(), key);
            }
            match d.add_handler(key, endpoint) {
                Ok(_) => {
                    assert(d.entries() =~= keys.listed().take(i + 1));
                },
                Err(reason) => {
                    assert(reason == RegisterError::DuplicateKey);
                    let ghost j = choose|j: int|
                        0 <= j < d.entries().len() && (#[trigger] d.entries()[j]).0 == key;
                    assert(keys.listed()[j].0 == keys.listed()[i as int].0);
                    return Err(Error::Init(InitError::Dispatch(reason)));
                },
            }
            i += 1;
        }
        assert(keys.listed().take(7) =~= keys.listed());
        assert(keys.distinct()) by {
            let pairs = keys.listed();
            assert forall|a: int, b: int| 0 <= a < b < 7 implies (#[trigger] pairs[a]).0 != (
            #[trigger] pairs[b]).0 by {
                assert(d.entries()[a] == keys.listed()[a]);
                assert(d.entries()[b] == keys.listed()[b]);
            }
        }
        Ok(d)
    }
}

/// Every reply that is sent carries the sequence number and the key of the
/// request that asked for it.
pub proof fn lemma_reply_pairing(table: Dispatch, bytes: Seq<u8>, plan: Plan, device_ok: bool)
    requires
        table.outcome(bytes) is Ok,
    ensures
        ({
            let hdr = table.outcome(bytes)->Ok_0.0;
            let reply = framed(hdr, reply_payload(plan.reply, succeeded(plan.call, device_ok)));
            &&& hdr == header_of(bytes)
            &&& header_of(reply) == header_of(bytes)
        }),
{
    let hdr = table.outcome(bytes)->Ok_0.0;
    lemma_frame_parse(hdr, reply_payload(plan.reply, succeeded(plan.call, device_ok)));
}

/// A request for an LED above 23 touches no device and is answered with a
/// refusal, whatever is said of the device.
pub proof fn lemma_out_of_range_refused(call: DeviceCall, num: u8, color: LedColor, device_ok: bool)
    requires
        num > 23,
        paints(call, num, color),
    ensures
        call.device() is None,
        reply_payload(Reply::Unit, succeeded(call, device_ok)) == unit_reply_wire(
            Err(RequestError {  }),
        ),
{
}

} // verus!
