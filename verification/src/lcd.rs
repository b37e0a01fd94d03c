//! The 20 x 4 character LCD: what is sent to the display for a message.

use crate::proto::MsgStatus;
use vstd::prelude::*;

verus! {

/// Characters in one row of the display.
pub const COLS: usize = 20;

/// Characters the display holds.
pub const CAPACITY: usize = 80;

/// One command to the display.
#[derive(Clone, Copy, Debug, PartialEq, Eq, Structural)]
pub enum LcdOp {
    /// Blank the display.
    Clear,
    /// Move the cursor to a position.
    SetCursor(u8),
    /// Write one byte at the cursor.
    Write(u8),
}

/// Why an LCD command failed.
#[derive(Clone, Copy, Debug, PartialEq, Eq, Structural)]
pub enum Error {
    InitMcp,
    Init,
    Busy(u8),
    SetCursorPos,
    WriteStr,
    Clear,
    SetBacklight,
    /// Not a failure: the driver gave way of its own accord.
    Yielded(u8),
}

/// The decimal digits of a number below 256.
pub open spec fn decimal(n: u8) -> Seq<char> {
    if n < 10 {
        digit(n)
    } else if n < 100 {
        digit(n / 10) + digit(n % 10)
    } else {
        digit(n / 100) + digit(n / 10 % 10) + digit(n % 10)
    }
}

/// The digit for a number below 10.
pub open spec fn digit(d: u8) -> Seq<char> {
    if d == 0 {
        "0"@
    } else if d == 1 {
        "1"@
    } else if d == 2 {
        "2"@
    } else if d == 3 {
        "3"@
    } else if d == 4 {
        "4"@
    } else if d == 5 {
        "5"@
    } else if d == 6 {
        "6"@
    } else if d == 7 {
        "7"@
    } else if d == 8 {
        "8"@
    } else {
        "9"@
    }
}

fn digit_str(d: u8) -> (s: &'static str)
    requires
        d < 10,
    ensures
        s@ == digit(d),
{
    if d == 0 {
        "0"
    } else if d == 1 {
        "1"
    } else if d == 2 {
        "2"
    } else if d == 3 {
        "3"
    } else if d == 4 {
        "4"
    } else if d == 5 {
        "5"
    } else if d == 6 {
        "6"
    } else if d == 7 {
        "7"
    } else if d == 8 {
        "8"
    } else {
        "9"
    }
}

fn append_decimal(text: String, n: u8) -> (out: String)
    ensures
        out@ == text@ + decimal(n),
{
    let mut out = text;
    if n >= 100 {
        out = out.concat(digit_str(n / 100));
    }
    if n >= 10 {
        out = out.concat(digit_str(n / 10 % 10));
    }
    out = out.concat(digit_str(n % 10));
    assert(out@ =~= text@ + decimal(n));
    out
}

impl Error {
    /// The text shown for this error.
    pub open spec fn text(self) -> Seq<char> {
        match self {
            Error::InitMcp => "I2C expander initialization error"@,
            Error::Init => "LCD initialization error"@,
            Error::SetCursorPos => "could not set cursor pos"@,
            Error::Busy(id) => "driver busy writing msg id "@ + decimal(id),
            Error::WriteStr => "could not write string"@,
            Error::Clear => "could not clear display"@,
            Error::SetBacklight => "could not control backlight"@,
            Error::Yielded(pos) => "driver voluntarily yielded pos "@ + decimal(pos),
        }
    }

    /// The text shown for this error.
    pub fn message(&self) -> (s: String)
        ensures
            s@ == self.text(),
    {
        match self {
            Error::InitMcp => String::from_str("I2C expander initialization error"),
            Error::Init => String::from_str("LCD initialization error"),
            Error::SetCursorPos => String::from_str("could not set cursor pos"),
            Error::Busy(id) => append_decimal(String::from_str("driver busy writing msg id "), *id),
            Error::WriteStr => String::from_str("could not write string"),
            Error::Clear => String::from_str("could not clear display"),
            Error::SetBacklight => String::from_str("could not control backlight"),
            Error::Yielded(pos) => append_decimal(
                String::from_str("driver voluntarily yielded pos "),
                *pos,
            ),
        }
    }
}

impl LcdOp {
    /// The error reported when the display refuses this command.
    pub open spec fn failure(self) -> Error {
        match self {
            LcdOp::Clear => Error::Clear,
            LcdOp::SetCursor(_) => Error::SetCursorPos,
            LcdOp::Write(_) => Error::WriteStr,
        }
    }
}

/// The error reported when the display refuses `op`.
pub fn failure_of(op: LcdOp) -> (e: Error)
    ensures
        e == op.failure(),
{
    match op {
        LcdOp::Clear => Error::Clear,
        LcdOp::SetCursor(_) => Error::SetCursorPos,
        LcdOp::Write(_) => Error::WriteStr,
    }
}

/// The commands for the character at index `i`: the cursor is moved
/// to `i` at every multiple of 20 but 0, and the character is written if
/// it is ASCII and skipped if it is not.
pub open spec fn char_ops(text: Seq<char>, i: int) -> Seq<LcdOp> {
    (if i % 20 == 0 && i != 0 {
        seq![LcdOp::SetCursor(i as u8)]
    } else {
        Seq::empty()
    }) + (if (text[i] as u32) < 128 {
        seq![LcdOp::Write(text[i] as u8)]
    } else {
        Seq::empty()
    })
}

/// The commands for the first `n` characters of `text`.
pub open spec fn text_ops(text: Seq<char>, n: nat) -> Seq<LcdOp>
    decreases n,
{
    if n == 0 {
        Seq::empty()
    } else {
        text_ops(text, (n - 1) as nat) + char_ops(text, n - 1)
    }
}

/// How many characters of a text are shown.
pub open spec fn shown(text: Seq<char>) -> nat {
    if text.len() > 80 {
        80
    } else {
        text.len()
    }
}

/// The commands that show `text`: clear, cursor to the start, then the
/// characters that fit.
pub open spec fn msg_ops(text: Seq<char>) -> Seq<LcdOp> {
    seq![LcdOp::Clear, LcdOp::SetCursor(0)] + text_ops(text, shown(text))
}

/// Whether all of `text` fits.
pub open spec fn msg_status(text: Seq<char>) -> MsgStatus {
    if text.len() > 80 {
        MsgStatus::Truncated
    } else {
        MsgStatus::Okay
    }
}

/// Plans the display of a message: the commands to send, in order, and
/// whether the text had to be cut at the display's capacity.
pub fn write_msg(msg: &str) -> (r: (Vec<LcdOp>, MsgStatus))
    ensures
        r.0@ == msg_ops(msg@),
        r.1 == msg_status(msg@),
{
    let len: usize = msg.unicode_len();
    let n: usize = if len > CAPACITY {
        CAPACITY
    } else {
        len
    };
    let mut out: Vec<LcdOp> = Vec::new();
    out.push(LcdOp::Clear);
    out.push(LcdOp::SetCursor(0));
    let mut i: usize = 0;
    while i < n
        invariant
            i <= n <= 80,
            n <= msg@.len(),
            out@ == seq![LcdOp::Clear, LcdOp::SetCursor(0)] + text_ops(msg@, i as nat),
        decreases n - i,
    {
        let c: char = msg.get_char(i);
        let ghost before = out@;
        if i % COLS == 0 && i != 0 {
            out.push(LcdOp::SetCursor(i as u8));
        }
        if (c as u32) < 128 {
            out.push(LcdOp::Write(c as u8));
        }
        assert(out@ =~= before + char_ops(msg@, i as int));
        assert(out@ =~= seq![LcdOp::Clear, LcdOp::SetCursor(0)] + text_ops(msg@, (i + 1) as nat));
        i += 1;
    }
    let status = if len > CAPACITY {
        MsgStatus::Truncated
    } else {
        MsgStatus::Okay
    };
    (out, status)
}

/// What the backlight request asks of the display: lit or dark.
pub fn set_backlight(back: crate::proto::SetBacklight) -> (lit: bool)
    ensures
        lit == back.lit(),
{
    match back {
        crate::proto::SetBacklight::On => true,
        crate::proto::SetBacklight::Off => false,
    }
}

/// Text that fits on one row is written without moving the cursor again;
/// longer text moves it once at the start of each further row.
pub proof fn lemma_first_row(text: Seq<char>, n: nat)
    requires
        n <= 20,
        n <= text.len(),
        forall|i: int| 0 <= i < n ==> (#[trigger] text[i] as u32) < 128,
    ensures
        text_ops(text, n) == Seq::new(n, |i: int| LcdOp::Write(text[i] as u8)),
    decreases n,
{
    if n > 0 {
        lemma_first_row(text, (n - 1) as nat);
        assert(char_ops(text, n - 1) =~= seq![LcdOp::Write(text[n - 1] as u8)]);
    }
    assert(text_ops(text, n) =~= Seq::new(n, |i: int| LcdOp::Write(text[i] as u8)));
}

} // verus!
