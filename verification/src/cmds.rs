//! Commands for the bargraph's worker. The worker owns the device and
//! serves one command after the other; the first one has to be `Init`.
//! `BlockingEventLoop::run` says for each command what the worker does on
//! the device.

use crate::bargraph::{changes, led_updates, set_led, set_led_no, Cell, CellUpdate};
use crate::blink::DisplayMode;
use crate::proto::{Device, Driver, LedColor, RequestError};
use vstd::prelude::*;

verus! {

/// A command for the bargraph.
#[derive(Clone, Copy, Debug, PartialEq, Eq, Structural)]
pub enum BargraphCmd {
    Init,
    SetLed { row: u8, col: u8 },
    ClearLed { row: u8, col: u8 },
    SetLedNo { num: u8, color: LedColor },
    /// Brightness in sixteenths of full brightness.
    SetBrightness { pwm: u8 },
    StartBlink,
    MediumBlink,
    SlowBlink,
    StopBlink,
}

/// Why a device could not be started.
#[derive(Clone, Debug, PartialEq, Eq)]
pub enum InitFailure {
    Driver(Driver),
    DeviceNotFound(Device),
    RespChannelClosed,
}

/// What a command may fail with.
#[derive(Clone, Debug, PartialEq, Eq)]
pub enum Error {
    /// Startup failed; for the server's main loop only.
    Init(InitFailure),
    /// A request failed; may be passed on to the client.
    Client(RequestError),
}

impl InitFailure {
    /// The text shown for this failure.
    pub fn message(&self) -> (s: &'static str)
        ensures
            s@ == (match self {
                InitFailure::Driver(Driver::Bargraph) => "driver bargraph could not communicate with device"@,
                InitFailure::Driver(Driver::Hd44780) => "driver lcd could not communicate with device"@,
                InitFailure::DeviceNotFound(_) => "unused placeholder"@,
                InitFailure::RespChannelClosed => "response channel to executor thread closed"@,
            }),
    {
        match self {
            InitFailure::Driver(Driver::Bargraph) => "driver bargraph could not communicate with device",
            InitFailure::Driver(Driver::Hd44780) => "driver lcd could not communicate with device",
            InitFailure::DeviceNotFound(_) => "unused placeholder",
            InitFailure::RespChannelClosed => "response channel to executor thread closed",
        }
    }
}

/// Why the worker left its loop.
#[derive(Clone, Copy, Debug, PartialEq, Eq, Structural)]
pub enum EventLoopError {
    CmdChannelClosed,
    InitNotCalledFirst,
    InitFailure,
}

impl EventLoopError {
    /// The text shown for this error.
    pub fn message(&self) -> (s: &'static str)
        ensures
            s@ == (match self {
                EventLoopError::CmdChannelClosed => "cmd channel was closed"@,
                EventLoopError::InitNotCalledFirst => "event loop did not receive init command first"@,
                EventLoopError::InitFailure => "init failure in driver"@,
            }),
    {
        match self {
            EventLoopError::CmdChannelClosed => "cmd channel was closed",
            EventLoopError::InitNotCalledFirst => "event loop did not receive init command first",
            EventLoopError::InitFailure => "init failure in driver",
        }
    }
}

/// What the worker does on the device.
#[derive(Clone, Debug, PartialEq, Eq)]
pub enum DriverOp {
    /// Open the device, initialize it and set its brightness, in
    /// sixteenths.
    Open { brightness: u8 },
    /// Initialize the device again.
    Initialize,
    /// Apply the changes to the display buffer in order and write it out.
    Cells(Vec<CellUpdate>),
    /// Nothing: the command names an LED or a cell that does not exist.
    Reject(crate::bargraph::Error),
    /// Set the brightness, in sixteenths.
    Dimming(u8),
    /// Set the display mode.
    Display(DisplayMode),
}

/// How the worker goes on.
#[derive(Clone, Debug, PartialEq, Eq)]
pub enum LoopTurn {
    /// Do this on the device and answer the command with the outcome.
    Run(DriverOp),
    /// Leave the loop, with the error to report if there is one.
    Stop(Option<EventLoopError>),
}

/// Whether `op` is what `cmd` asks of a device that is open.
pub open spec fn serves(cmd: BargraphCmd, op: DriverOp) -> bool {
    match cmd {
        BargraphCmd::Init => op is Initialize,
        BargraphCmd::SetLed { row, col } => if row < 16 && col < 8 {
            op matches DriverOp::Cells(u) && changes(u@) == seq![(Cell { row, col }, true)]
        } else {
            op == DriverOp::Reject(crate::bargraph::Error::OutOfRange)
        },
        BargraphCmd::ClearLed { row, col } => if row < 16 && col < 8 {
            op matches DriverOp::Cells(u) && changes(u@) == seq![(Cell { row, col }, false)]
        } else {
            op == DriverOp::Reject(crate::bargraph::Error::OutOfRange)
        },
        BargraphCmd::SetLedNo { num, color } => if num <= 23 {
            op matches DriverOp::Cells(u) && changes(u@) == led_updates(num, color)
        } else {
            op == DriverOp::Reject(crate::bargraph::Error::OutOfRange)
        },
        BargraphCmd::SetBrightness { pwm } => op == DriverOp::Dimming(pwm),
        BargraphCmd::StartBlink => op == DriverOp::Display(DisplayMode::TwoHz),
        BargraphCmd::MediumBlink => op == DriverOp::Display(DisplayMode::OneHz),
        BargraphCmd::SlowBlink => op == DriverOp::Display(DisplayMode::HalfHz),
        BargraphCmd::StopBlink => op == DriverOp::Display(DisplayMode::On),
    }
}

fn one_cell(row: u8, col: u8, enabled: bool) -> (op: DriverOp)
    ensures
        if row < 16 && col < 8 {
            op matches DriverOp::Cells(u) && changes(u@) == seq![(Cell { row, col }, enabled)]
        } else {
            op == DriverOp::Reject(crate::bargraph::Error::OutOfRange)
        },
{
    match set_led(row, col, enabled) {
        Ok(update) => {
            let mut updates: Vec<CellUpdate> = Vec::new();
            updates.push(update);
            assert(changes(updates@) =~= seq![(Cell { row, col }, enabled)]);
            DriverOp::Cells(updates)
        },
        Err(e) => DriverOp::Reject(e),
    }
}

/// The worker's loop: whether the device is open yet.
pub struct BlockingEventLoop {
    started: bool,
}

impl BlockingEventLoop {
    /// Whether the device was opened.
    pub closed spec fn started(&self) -> bool {
        self.started
    }

    /// A loop that waits for `Init`.
    pub fn new() -> (l: BlockingEventLoop)
        ensures
            !l.started(),
    {
        BlockingEventLoop { started: false }
    }

    /// One turn of the loop, on the command received or on `None` where
    /// the command channel is closed.
    ///
    /// Before the device is open, `Init` opens it at brightness 3/16, any
    /// other command ends the loop with `InitNotCalledFirst`, and a
    /// closed channel ends it with `CmdChannelClosed`. Afterwards every
    /// command is served, and a closed channel ends the loop without an
    /// error.
    pub fn run(&mut self, cmd: Option<BargraphCmd>) -> (turn: LoopTurn)
        ensures
            match (old(self).started(), cmd) {
                (false, Some(BargraphCmd::Init)) => turn == LoopTurn::Run(
                    DriverOp::Open { brightness: 3 },
                ) && final(self).started(),
                (false, Some(_)) => turn == LoopTurn::Stop(
                    Some(EventLoopError::InitNotCalledFirst),
                ) && !final(self).started(),
                (false, None) => turn == LoopTurn::Stop(Some(EventLoopError::CmdChannelClosed))
                    && !final(self).started(),
                (true, Some(c)) => {
                    &&& turn matches LoopTurn::Run(op) && serves(c, op)
                    &&& final(self).started()
                },
                (true, None) => turn == LoopTurn::Stop(None) && final(self).started(),
            },
    {
        if !self.started {
            return match cmd {
                Some(BargraphCmd::Init) => {
                    self.started = true;
                    LoopTurn::Run(DriverOp::Open { brightness: 3 })
                },
                Some(_) => LoopTurn::Stop(Some(EventLoopError::InitNotCalledFirst)),
                None => LoopTurn::Stop(Some(EventLoopError::CmdChannelClosed)),
            };
        }
        let c = match cmd {
            Some(c) => c,
            None => {
                return LoopTurn::Stop(None);
            },
        };
        let op = match c {
            BargraphCmd::Init => DriverOp::Initialize,
            BargraphCmd::SetLed { row, col } => one_cell(row, col, true),
            BargraphCmd::ClearLed { row, col } => one_cell(row, col, false),
            BargraphCmd::SetLedNo { num, color } => match set_led_no(num, color) {
                Ok(updates) => DriverOp::Cells(updates),
                Err(e) => DriverOp::Reject(e),
            },
            BargraphCmd::SetBrightness { pwm } => DriverOp::Dimming(pwm),
            BargraphCmd::StartBlink => DriverOp::Display(DisplayMode::TwoHz),
            BargraphCmd::MediumBlink => DriverOp::Display(DisplayMode::OneHz),
            BargraphCmd::SlowBlink => DriverOp::Display(DisplayMode::HalfHz),
            BargraphCmd::StopBlink => DriverOp::Display(DisplayMode::On),
        };
        LoopTurn::Run(op)
    }

    /// After the device was opened: the loop goes on where that worked
    /// and ends with `InitFailure` where it did not.
    pub fn init(opened: bool) -> (r: Result<(), EventLoopError>)
        ensures
            r == (if opened {
                Ok::<(), EventLoopError>(())
            } else {
                Err::<(), EventLoopError>(EventLoopError::InitFailure)
            }),
    {
        if opened {
            Ok(())
        } else {
            Err(EventLoopError::InitFailure)
        }
    }
}

/// The command that sets the display mode of a blink state.
pub fn blink_cmd(mode: DisplayMode) -> (cmd: BargraphCmd)
    ensures
        serves(cmd, DriverOp::Display(mode)),
{
    match mode {
        DisplayMode::TwoHz => BargraphCmd::StartBlink,
        DisplayMode::OneHz => BargraphCmd::MediumBlink,
        DisplayMode::HalfHz => BargraphCmd::SlowBlink,
        DisplayMode::On => BargraphCmd::StopBlink,
    }
}

} // verus!
