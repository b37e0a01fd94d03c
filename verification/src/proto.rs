//! Message types exchanged between client and server, one request and one
//! response type per endpoint.

use vstd::prelude::*;

verus! {

/// Path of the echo endpoint.
pub const ECHO_PATH: &'static str = "debug/echo";

/// Path of the endpoint that sets one LED.
pub const SET_LED_PATH: &'static str = "led/set";

/// Path of the notification endpoint.
pub const NOTIFY_PATH: &'static str = "led/notify";

/// Path of the acknowledgement endpoint.
pub const CLEAR_NOTIFY_PATH: &'static str = "led/ack";

/// Path of the endpoint that sets the bargraph's brightness.
pub const SET_DIMMING_PATH: &'static str = "led/dimming";

/// Path of the endpoint that switches the LCD's backlight.
pub const HD44780_SET_BACKLIGHT_PATH: &'static str = "lcd/backlight";

/// Path of the endpoint that shows a text on the LCD.
pub const HD44780_SEND_MSG_PATH: &'static str = "lcd/msg";

/// The server saw the request but the driver refused it. Carries nothing on
/// the wire.
#[derive(Clone, Copy, Debug, PartialEq, Eq, Structural)]
pub struct RequestError {}

impl RequestError {
    /// The text shown for this error.
    pub fn message(&self) -> (s: String)
        ensures
            s@ == "driver could not honor request, check error endpoint for details"@,
    {
        String::from_str("driver could not honor request, check error endpoint for details")
    }
}

/// LED colors.
#[derive(Clone, Copy, Debug, PartialEq, Eq, Structural)]
pub enum LedColor {
    /// Both the red and the green LED are off.
    Off,
    /// Only the green LED is on.
    Green,
    /// Only the red LED is on.
    Red,
    /// Both the red and the green LED are on.
    Yellow,
}

impl LedColor {
    /// Whether this color lights the red cell.
    pub open spec fn red(self) -> bool {
        self == LedColor::Red || self == LedColor::Yellow
    }

    /// Whether this color lights the green cell.
    pub open spec fn green(self) -> bool {
        self == LedColor::Green || self == LedColor::Yellow
    }
}

/// Shows a color on one LED of the bargraph.
#[derive(Clone, Copy, Debug, PartialEq, Eq, Structural)]
pub struct SetLed {
    pub num: u8,
    pub color: LedColor,
}

/// The answer to `SetLed`.
#[derive(Clone, Copy, Debug, PartialEq, Eq)]
pub struct SetLedResponse(pub Result<(), RequestError>);

/// Sets the brightness of the bargraph.
#[derive(Clone, Copy, Debug, PartialEq, Eq, Structural)]
pub enum SetDimming {
    Lo,
    Hi,
}

impl SetDimming {
    /// The driver brightness this level stands for, in sixteenths of full
    /// brightness.
    pub open spec fn sixteenths(self) -> u8 {
        match self {
            SetDimming::Lo => 3,
            SetDimming::Hi => 16,
        }
    }
}

/// The answer to `SetDimming`.
#[derive(Clone, Copy, Debug, PartialEq, Eq)]
pub struct SetDimmingResponse(pub Result<(), RequestError>);

/// How urgent a notification is.
#[derive(Clone, Copy, Debug, PartialEq, Eq, Structural)]
pub enum Status {
    Okay,
    Warning,
    Error,
}

impl Status {
    /// The color a notification of this status is shown in.
    pub open spec fn spec_color(self) -> LedColor {
        match self {
            Status::Okay => LedColor::Green,
            Status::Warning => LedColor::Yellow,
            Status::Error => LedColor::Red,
        }
    }

    /// The color a notification of this status is shown in.
    #[verifier::when_used_as_spec(spec_color)]
    pub fn color(self) -> (c: LedColor)
        ensures
            c == self.spec_color(),
    {
        match self {
            Status::Okay => LedColor::Green,
            Status::Warning => LedColor::Yellow,
            Status::Error => LedColor::Red,
        }
    }
}

/// Raises a notification on one LED.
#[derive(Clone, Copy, Debug, PartialEq, Eq, Structural)]
pub struct Notify {
    pub num: u8,
    pub status: Status,
}

/// The answer to `Notify`.
#[derive(Clone, Copy, Debug, PartialEq, Eq)]
pub struct NotifyResponse(pub Result<(), RequestError>);

/// Acknowledges one LED, or all of them where `num` is `None`.
#[derive(Clone, Copy, Debug, PartialEq, Eq)]
pub struct Ack {
    pub num: Option<u8>,
}

/// The answer to `Ack`.
#[derive(Clone, Copy, Debug, PartialEq, Eq)]
pub struct AckResponse(pub Result<(), RequestError>);

/// A text to be sent back in upper case.
#[derive(Clone, Debug, PartialEq, Eq)]
pub struct Echo(pub String);

impl Echo {
    /// An echo request with the given text.
    pub fn from(value: &str) -> (e: Echo)
        ensures
            e.0@ == value@,
    {
        Echo(String::from_str(value))
    }
}

/// The answer to `Echo`.
#[derive(Clone, Debug, PartialEq, Eq)]
pub struct EchoResponse(pub String);

impl EchoResponse {
    /// The text of the answer.
    pub fn into_string(self) -> (s: String)
        ensures
            s == self.0,
    {
        self.0
    }
}

/// The kinds of device the daemon can drive.
#[derive(Clone, Copy, Debug, PartialEq, Eq, Structural, Hash)]
pub enum Driver {
    Bargraph,
    Hd44780,
}

/// A configured device: its name, its bus address and its driver.
#[derive(Clone, Debug, PartialEq, Eq, Hash)]
pub struct Device {
    pub name: String,
    pub addr: u8,
    pub driver: Driver,
}

/// The answer to the initialization of a device.
#[derive(Debug, PartialEq, Eq)]
pub struct InitResponse<E>(pub Result<(), E>);

/// Enables a device.
#[derive(Clone, Copy, Debug, PartialEq, Eq, Structural)]
pub struct Enable();

/// The answer to `Enable`.
#[derive(Clone, Copy, Debug, PartialEq, Eq)]
pub struct EnableResponse(pub Result<(), RequestError>);

/// Switches the backlight of the LCD.
#[derive(Clone, Copy, Debug, PartialEq, Eq, Structural)]
pub enum SetBacklight {
    On,
    Off,
}

impl SetBacklight {
    /// Whether the backlight is lit after this request.
    pub open spec fn lit(self) -> bool {
        self == SetBacklight::On
    }
}

/// The answer to `SetBacklight`.
#[derive(Clone, Copy, Debug, PartialEq, Eq)]
pub struct SetBacklightResponse(pub Result<(), RequestError>);

impl SetBacklightResponse {
    /// The answer that carries the given result.
    pub fn from(value: Result<(), RequestError>) -> (r: SetBacklightResponse)
        ensures
            r.0 == value,
    {
        SetBacklightResponse(value)
    }
}

/// A text to be shown on the LCD.
#[derive(Clone, Debug, PartialEq, Eq)]
pub struct SendMsg(pub String);

/// Whether all of a text was shown.
#[derive(Clone, Copy, Debug, PartialEq, Eq, Structural)]
pub enum MsgStatus {
    Okay,
    Truncated,
}

/// The answer to `SendMsg`.
#[derive(Clone, Copy, Debug, PartialEq, Eq)]
pub struct SendMsgResponse(pub Result<MsgStatus, RequestError>);

} // verus!
