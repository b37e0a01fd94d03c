//! Words of the command line and what they stand for.

use crate::dispatch::{Request, RequestView};
use crate::proto::{Ack, Notify, SendMsg, SetBacklight, SetDimming, Status};
use vstd::prelude::*;
use vstd::utf8::{decode_utf8, encode_utf8};

verus! {

/// The number that a text spells, as `str::parse::<u16>` of std reads it.
pub uninterp spec fn parsed_u16(s: Seq<char>) -> Option<u16>;

/// `str::parse::<u16>` of std, with the reason of a failure dropped. Taken
/// on trust: the result depends on the text alone, and is what `parsed_u16`
/// names for it.
#[verifier::external_body]
fn parse_u16(s: &str) -> (r: Option<u16>)
    ensures
        r == parsed_u16(s@),
{
    s.parse::<u16>().ok()
}

/// Whether two texts are the same.
pub fn str_eq(a: &str, b: &str) -> (r: bool)
    ensures
        r == (a@ == b@),
{
    let x = a.as_bytes();
    let y = b.as_bytes();
    proof {
        vstd::utf8::encode_utf8_decode_utf8(a@);
        vstd::utf8::encode_utf8_decode_utf8(b@);
    }
    if x.len() != y.len() {
        return false;
    }
    let mut i: usize = 0;
    while i < x.len()
        invariant
            i <= x@.len(),
            x@.len() == y@.len(),
            x@.take(i as int) == y@.take(i as int),
            x@ == encode_utf8(a@),
            y@ == encode_utf8(b@),
            decode_utf8(encode_utf8(a@)) == a@,
            decode_utf8(encode_utf8(b@)) == b@,
        decreases x@.len() - i,
    {
        if x[i] != y[i] {
            assert(x@[i as int] != y@[i as int]);
            return false;
        }
        assert(x@.take(i + 1) =~= x@.take(i as int).push(x@[i as int]));
        assert(y@.take(i + 1) =~= y@.take(i as int).push(y@[i as int]));
        i += 1;
    }
    assert(x@.take(i as int) =~= x@);
    assert(y@.take(i as int) =~= y@);
    true
}

/// The brightness that a word stands for.
pub open spec fn dim_of(level: Seq<char>) -> Option<SetDimming> {
    if level == "hi"@ || level == "high"@ {
        Some(SetDimming::Hi)
    } else if level == "lo"@ || level == "low"@ {
        Some(SetDimming::Lo)
    } else {
        None
    }
}

/// Reads a brightness: "hi" or "high", "lo" or "low". Any other word gives
/// a message that names it.
pub fn dim_parse(level: &str) -> (r: Result<SetDimming, String>)
    ensures
        match dim_of(level@) {
            Some(d) => r == Ok::<SetDimming, String>(d),
            None => r is Err && r->Err_0@ == "expected \"hi\", \"high\", \"lo\", or \"low\", got "@
                + level@,
        },
{
    if str_eq(level, "hi") || str_eq(level, "high") {
        Ok(SetDimming::Hi)
    } else if str_eq(level, "lo") || str_eq(level, "low") {
        Ok(SetDimming::Lo)
    } else {
        Err(String::from_str("expected \"hi\", \"high\", \"lo\", or \"low\", got ").concat(level))
    }
}

/// The backlight setting that a word stands for.
pub open spec fn backlight_of(level: Seq<char>) -> Option<SetBacklight> {
    if level == "off"@ {
        Some(SetBacklight::Off)
    } else if level == "on"@ {
        Some(SetBacklight::On)
    } else {
        None
    }
}

/// Reads a backlight setting: "on" or "off". Any other word gives a message
/// that names it.
pub fn backlight_parse(level: &str) -> (r: Result<SetBacklight, String>)
    ensures
        match backlight_of(level@) {
            Some(b) => r == Ok::<SetBacklight, String>(b),
            None => r is Err && r->Err_0@ == "expected \"on\", or \"off\", got "@ + level@,
        },
{
    if str_eq(level, "off") {
        Ok(SetBacklight::Off)
    } else if str_eq(level, "on") {
        Ok(SetBacklight::On)
    } else {
        Err(String::from_str("expected \"on\", or \"off\", got ").concat(level))
    }
}

/// The status that a word names, if it is one of the names.
pub open spec fn status_named(status: Seq<char>) -> Option<Status> {
    if status == "red"@ || status == "urgent"@ {
        Some(Status::Error)
    } else if status == "yellow"@ || status == "error"@ {
        Some(Status::Warning)
    } else if status == "on"@ || status == "green"@ || status == "ok"@ {
        Some(Status::Okay)
    } else {
        None
    }
}

/// The status that a number stands for: 0 is all right, anything else a
/// warning.
pub open spec fn status_numbered(number: u16) -> Status {
    if number == 0 {
        Status::Okay
    } else {
        Status::Warning
    }
}

/// The status for a word that is none of the names, given the number it
/// spells, if it spells one.
pub fn status_of_number(status: &str, number: Option<u16>) -> (r: Result<Status, String>)
    ensures
        match number {
            Some(n) => r == Ok::<Status, String>(status_numbered(n)),
            None => r is Err && r->Err_0@
                == "expected \"red\", \"urgent\", \"yellow\", \"error\", \"on\", \"green\", \"ok\", or integer, got "@
                + status@,
        },
{
    match number {
        Some(n) => Ok(
            if n == 0 {
                Status::Okay
            } else {
                Status::Warning
            },
        ),
        None => Err(
            String::from_str(
                "expected \"red\", \"urgent\", \"yellow\", \"error\", \"on\", \"green\", \"ok\", or integer, got ",
            ).concat(status),
        ),
    }
}

/// Reads a status: one of the names, or a number. "red" and "urgent" are
/// an error, "yellow" and "error" a warning, "on", "green" and "ok" are
/// all right.
pub fn status_parse(status: &str) -> (r: Result<Status, String>)
    ensures
        match status_named(status@) {
            Some(s) => r == Ok::<Status, String>(s),
            None => match parsed_u16(status@) {
                Some(n) => r == Ok::<Status, String>(status_numbered(n)),
                None => r is Err && r->Err_0@
                    == "expected \"red\", \"urgent\", \"yellow\", \"error\", \"on\", \"green\", \"ok\", or integer, got "@
                    + status@,
            },
        },
{
    if str_eq(status, "red") || str_eq(status, "urgent") {
        Ok(Status::Error)
    } else if str_eq(status, "yellow") || str_eq(status, "error") {
        Ok(Status::Warning)
    } else if str_eq(status, "on") || str_eq(status, "green") || str_eq(status, "ok") {
        Ok(Status::Okay)
    } else {
        status_of_number(status, parse_u16(status))
    }
}

/// Milliseconds the client waits for a reply where no timeout is given.
pub const DEFAULT_TIMEOUT_MS: u64 = 1000;

/// A command of the client program.
#[derive(Clone, Debug, PartialEq, Eq)]
pub enum Cmd {
    /// Notify the daemon, and show a message on the LCD if one is given.
    Notify { num: Option<u8>, status: Option<Status>, msg: Option<String> },
    /// Acknowledge one LED, or all where none is given.
    Ack { num: Option<u8> },
    /// Set the brightness of the bargraph.
    ConfigBargraph { level: Option<SetDimming> },
    /// Switch the backlight of the LCD.
    ConfigLcd { back: Option<SetBacklight> },
}

/// The notification for the given LED and status: LED 0 and an all-right
/// status where none is given.
pub open spec fn notification(num: Option<u8>, status: Option<Status>) -> Notify {
    Notify {
        num: match num {
            Some(n) => n,
            None => 0,
        },
        status: match status {
            Some(s) => s,
            None => Status::Okay,
        },
    }
}

/// The requests that a command stands for, in the order in which they are
/// sent: a notification is followed by its message if it has one; the
/// bargraph is made bright and the backlight lit where nothing else is
/// asked for.
pub fn requests(cmd: Cmd) -> (out: Vec<Request>)
    ensures
        match cmd {
            Cmd::Notify { num, status, msg } => {
                &&& out@.len() == (if msg is Some {
                    2int
                } else {
                    1int
                })
                &&& out@[0]@ == RequestView::Notify(notification(num, status))
                &&& msg matches Some(m) ==> out@[1]@ == RequestView::SendMsg(m@)
            },
            Cmd::Ack { num } => out@.len() == 1 && out@[0]@ == RequestView::Ack(Ack { num }),
            Cmd::ConfigBargraph { level } => out@.len() == 1 && out@[0]@
                == RequestView::SetDimming(
                match level {
                    Some(l) => l,
                    None => SetDimming::Hi,
                },
            ),
            Cmd::ConfigLcd { back } => out@.len() == 1 && out@[0]@ == RequestView::SetBacklight(
                match back {
                    Some(b) => b,
                    None => SetBacklight::On,
                },
            ),
        },
{
    let mut out: Vec<Request> = Vec::new();
    match cmd {
        Cmd::Notify { num, status, msg } => {
            let num: u8 = match num {
                Some(n) => n,
                None => 0,
            };
            let status = match status {
                Some(s) => s,
                None => Status::Okay,
            };
            out.push(Request::Notify(Notify { num, status }));
            match msg {
                Some(m) => out.push(Request::SendMsg(SendMsg(m))),
                None => {},
            }
        },
        Cmd::Ack { num } => out.push(Request::Ack(Ack { num })),
        Cmd::ConfigBargraph { level } => out.push(
            Request::SetDimming(
                match level {
                    Some(l) => l,
                    None => SetDimming::Hi,
                },
            ),
        ),
        Cmd::ConfigLcd { back } => out.push(
            Request::SetBacklight(
                match back {
                    Some(b) => b,
                    None => SetBacklight::On,
                },
            ),
        ),
    }
    out
}

/// The arguments of the daemon.
#[derive(Clone, Debug, PartialEq, Eq)]
pub struct ServerArgs {
    /// Config file to read in place of the default one.
    pub cfg_file: Option<String>,
    /// Do not exit when a device fails to answer.
    pub relaxed: bool,
    /// Port to bind.
    pub port: u16,
    /// I2C bus to connect to.
    pub dev: String,
}

} // verus!
