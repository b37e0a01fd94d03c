//! The 24-LED bi-color bargraph. Each LED is a red cell and a green cell
//! of the controller's 16 x 8 display memory; this module computes which
//! cells a request touches. Writing them to the device is left to the
//! caller.

use crate::proto::{LedColor, SetDimming};
use ht16k33::LedLocation;
use vstd::prelude::*;

verus! {

/// Number of LEDs on the bargraph.
pub const LED_COUNT: u8 = 24;

/// Rows of the controller's display memory.
pub const ROWS: u8 = 16;

/// Columns (commons) of the controller's display memory.
pub const COMMONS: u8 = 8;

/// `ht16k33::LedLocation`: a validated position in the controller's
/// display memory. Nothing is known here of what it holds.
#[verifier::external_type_specification]
#[verifier::external_body]
pub struct ExLedLocation(LedLocation);

/// `LedLocation::new` of the controller's driver, with the reason of a
/// failure dropped. Taken on trust: it gives a location for every row below
/// 16 and common below 8, and for no other.
#[verifier::external_body]
fn locate(row: u8, common: u8) -> (r: Option<LedLocation>)
    ensures
        r is Some <==> (row < 16 && common < 8),
{
    LedLocation::new(row, common).ok()
}

/// Why a bargraph command failed.
#[derive(Clone, Copy, Debug, PartialEq, Eq)]
pub enum Error {
    /// The bus or the device failed.
    Hal,
    /// No such LED or cell.
    OutOfRange,
}

impl Error {
    /// The text shown for this error.
    pub fn message(&self) -> (s: &'static str)
        ensures
            s@ == (match self {
                Error::Hal => "HAL error"@,
                Error::OutOfRange => "LED out of range"@,
            }),
    {
        match self {
            Error::Hal => "HAL error",
            Error::OutOfRange => "LED out of range",
        }
    }
}

/// A cell of the display memory.
#[derive(Clone, Copy, Debug, PartialEq, Eq, Structural)]
pub struct Cell {
    pub row: u8,
    pub col: u8,
}

/// One change to the display buffer.
#[derive(Clone, Copy, Debug, PartialEq, Eq)]
pub struct CellUpdate {
    pub cell: Cell,
    pub enabled: bool,
    /// The cell as the driver wants it.
    pub location: LedLocation,
}

/// The red cell of LED `num`.
pub open spec fn red_cell(num: u8) -> Cell {
    Cell {
        row: if num >= 12 {
            (num % 4 + 4) as u8
        } else {
            num % 4
        },
        col: (num / 4) % 3,
    }
}

/// The green cell of LED `num`: eight rows below the red one.
pub open spec fn green_cell(num: u8) -> Cell {
    Cell { row: (red_cell(num).row + 8) as u8, col: red_cell(num).col }
}

/// The buffer changes that show `color` on LED `num`: both cells are
/// cleared, then the red cell is set for red and yellow and the green cell
/// for green and yellow.
pub open spec fn led_updates(num: u8, color: LedColor) -> Seq<(Cell, bool)> {
    seq![(red_cell(num), false), (green_cell(num), false)] + (if color.red() {
        seq![(red_cell(num), true)]
    } else {
        Seq::empty()
    }) + (if color.green() {
        seq![(green_cell(num), true)]
    } else {
        Seq::empty()
    })
}

/// What a list of updates says, without the driver's own form of the cells.
pub open spec fn changes(updates: Seq<CellUpdate>) -> Seq<(Cell, bool)> {
    updates.map_values(|u: CellUpdate| (u.cell, u.enabled))
}

/// The red and the green cell of LED `num`, or `OutOfRange` for a number
/// above 23.
pub fn led_cells(num: u8) -> (r: Result<(Cell, Cell), Error>)
    ensures
        num > 23 <==> r is Err,
        r is Err ==> r->Err_0 == Error::OutOfRange,
        r is Ok ==> r->Ok_0 == (red_cell(num), green_cell(num)) && r->Ok_0.0.row < 8 && 8
            <= r->Ok_0.1.row < 16 && r->Ok_0.0.col < 3 && r->Ok_0.1.col < 3,
{
    if num >= LED_COUNT {
        return Err(Error::OutOfRange);
    }
    let row: u8 = if num >= 12 {
        num % 4 + 4
    } else {
        num % 4
    };
    let col: u8 = (num / 4) % 3;
    Ok((Cell { row, col }, Cell { row: row + 8, col }))
}

/// One change to the cell at `row` and `col`, or `OutOfRange` where the
/// display memory has no such cell.
pub fn set_led(row: u8, col: u8, enabled: bool) -> (r: Result<CellUpdate, Error>)
    ensures
        (row >= 16 || col >= 8) <==> r is Err,
        r is Err ==> r->Err_0 == Error::OutOfRange,
        r is Ok ==> r->Ok_0.cell == (Cell { row, col }) && r->Ok_0.enabled == enabled,
{
    match locate(row, col) {
        Some(location) => Ok(CellUpdate { cell: Cell { row, col }, enabled, location }),
        None => Err(Error::OutOfRange),
    }
}

/// The buffer changes that show `color` on LED `num`, in the order in which
/// they are applied, or `OutOfRange` for a number above 23. The caller
/// applies them and then writes the buffer to the device.
pub fn set_led_no(num: u8, color: LedColor) -> (r: Result<Vec<CellUpdate>, Error>)
    ensures
        num > 23 <==> r is Err,
        r is Err ==> r->Err_0 == Error::OutOfRange,
        r is Ok ==> changes(r->Ok_0@) == led_updates(num, color),
{
    let (red, green) = match led_cells(num) {
        Ok(cells) => cells,
        Err(e) => {
            return Err(e);
        },
    };
    let mut out: Vec<CellUpdate> = Vec::new();
    match set_led(red.row, red.col, false) {
        Ok(u) => out.push(u),
        Err(e) => {
            return Err(e);
        },
    }
    match set_led(green.row, green.col, false) {
        Ok(u) => out.push(u),
        Err(e) => {
            return Err(e);
        },
    }
    if color == LedColor::Red || color == LedColor::Yellow {
        match set_led(red.row, red.col, true) {
            Ok(u) => out.push(u),
            Err(e) => {
                return Err(e);
            },
        }
    }
    if color == LedColor::Green || color == LedColor::Yellow {
        match set_led(green.row, green.col, true) {
            Ok(u) => out.push(u),
            Err(e) => {
                return Err(e);
            },
        }
    }
    assert(changes(out@) =~= led_updates(num, color));
    Ok(out)
}

/// The driver brightness for a dimming request, in sixteenths of full
/// brightness.
pub fn set_dimming(level: SetDimming) -> (sixteenths: u8)
    ensures
        sixteenths == level.sixteenths(),
{
    match level {
        SetDimming::Hi => 16,
        SetDimming::Lo => 3,
    }
}

/// Two different LEDs share no cell, and no LED's red cell is its green
/// cell.
pub proof fn lemma_cells_distinct(a: u8, b: u8)
    requires
        a <= 23,
        b <= 23,
    ensures
        red_cell(a) != green_cell(b),
        a != b ==> red_cell(a) != red_cell(b) && green_cell(a) != green_cell(b),
{
}

/// The driver's brightness level for a brightness in sixteenths: one less,
/// for 1/16 up to 16/16, and none for any other number.
pub fn driver_level(sixteenths: u8) -> (level: Option<u8>)
    ensures
        level == (if 1 <= sixteenths <= 16 {
            Some((sixteenths - 1) as u8)
        } else {
            None
        }),
{
    if 1 <= sixteenths && sixteenths <= 16 {
        Some(sixteenths - 1)
    } else {
        None
    }
}

/// Whether the display memory has the cell.
pub open spec fn in_range(cell: Cell) -> bool {
    cell.row < 16 && cell.col < 8
}

/// The lit cells after one change. A change to a cell that the display
/// memory does not have changes nothing.
pub open spec fn changed(lit: Set<Cell>, cell: Cell, enabled: bool) -> Set<Cell> {
    if !in_range(cell) {
        lit
    } else if enabled {
        lit.insert(cell)
    } else {
        lit.remove(cell)
    }
}

/// The lit cells after a list of changes, applied in order.
pub open spec fn applied(lit: Set<Cell>, updates: Seq<(Cell, bool)>) -> Set<Cell>
    decreases updates.len(),
{
    if updates.len() == 0 {
        lit
    } else {
        changed(applied(lit, updates.drop_last()), updates.last().0, updates.last().1)
    }
}

/// The color that LED `num` shows when the cells in `lit` are lit.
pub open spec fn shown(lit: Set<Cell>, num: u8) -> LedColor {
    if lit.contains(red_cell(num)) {
        if lit.contains(green_cell(num)) {
            LedColor::Yellow
        } else {
            LedColor::Red
        }
    } else {
        if lit.contains(green_cell(num)) {
            LedColor::Green
        } else {
            LedColor::Off
        }
    }
}

/// A picture of the display buffer: which cells are lit.
pub struct Panel {
    cells: Vec<bool>,
}

impl Panel {
    /// One flag for each of the 16 x 8 cells.
    pub closed spec fn wf(&self) -> bool {
        self.cells@.len() == 128
    }

    /// The lit cells.
    pub closed spec fn lit(&self) -> Set<Cell> {
        Set::new(|c: Cell| in_range(c) && self.cells@[c.row * 8 + c.col])
    }

    /// A dark panel.
    pub fn new() -> (p: Panel)
        ensures
            p.wf(),
            p.lit() == Set::<Cell>::empty(),
    {
        let mut cells: Vec<bool> = Vec::new();
        while cells.len() < 128
            invariant
                cells@.len() <= 128,
                forall|i: int| 0 <= i < cells@.len() ==> !cells@[i],
            decreases 128 - cells@.len(),
        {
            cells.push(false);
        }
        let p = Panel { cells };
        assert(p.lit() =~= Set::<Cell>::empty());
        p
    }

    /// Switches every cell off.
    pub fn clear_all(&mut self)
        requires
            old(self).wf(),
        ensures
            final(self).wf(),
            final(self).lit() == Set::<Cell>::empty(),
    {
        *self = Panel::new();
    }

    /// Whether the cell is lit.
    pub fn is_lit(&self, cell: Cell) -> (b: bool)
        requires
            self.wf(),
        ensures
            b == self.lit().contains(cell),
    {
        if cell.row < ROWS && cell.col < COMMONS {
            let i: usize = cell.row as usize * 8 + cell.col as usize;
            self.cells[i]
        } else {
            false
        }
    }

    /// Switches one cell on or off.
    pub fn set(&mut self, cell: Cell, enabled: bool)
        requires
            old(self).wf(),
        ensures
            final(self).wf(),
            final(self).lit() == changed(old(self).lit(), cell, enabled),
    {
        if cell.row < ROWS && cell.col < COMMONS {
            let i: usize = cell.row as usize * 8 + cell.col as usize;
            self.cells[i] = enabled;
            assert forall|c: Cell| final(self).lit().contains(c) == changed(
                old(self).lit(),
                cell,
                enabled,
            ).contains(c) by {
                if in_range(c) && c != cell {
                    assert(c.row * 8 + c.col != cell.row * 8 + cell.col);
                }
            }
            assert(final(self).lit() =~= changed(old(self).lit(), cell, enabled));
        }
    }

    /// Applies a list of changes in order.
    pub fn apply(&mut self, updates: &[CellUpdate])
        requires
            old(self).wf(),
        ensures
            final(self).wf(),
            final(self).lit() == applied(old(self).lit(), changes(updates@)),
    {
        let mut i: usize = 0;
        while i < updates.len()
            invariant
                i <= updates@.len(),
                self.wf(),
                self.lit() == applied(old(self).lit(), changes(updates@.take(i as int))),
            decreases updates@.len() - i,
        {
            let u = &updates[i];
            self.set(u.cell, u.enabled);
            proof {
                let now = changes(updates@.take(i + 1));
                assert(now.drop_last() =~= changes(updates@.take(i as int)));
                assert(now.last() == (u.cell, u.enabled));
            }
            i += 1;
        }
        assert(updates@.take(i as int) =~= updates@);
    }

    /// The color that LED `num` shows, or `None` for a number above 23.
    pub fn color(&self, num: u8) -> (c: Option<LedColor>)
        requires
            self.wf(),
        ensures
            c == (if num > 23 {
                None
            } else {
                Some(shown(self.lit(), num))
            }),
    {
        match led_cells(num) {
            Err(_) => None,
            Ok((red, green)) => {
                let r = self.is_lit(red);
                let g = self.is_lit(green);
                Some(
                    if r && g {
                        LedColor::Yellow
                    } else if r {
                        LedColor::Red
                    } else if g {
                        LedColor::Green
                    } else {
                        LedColor::Off
                    },
                )
            },
        }
    }
}

/// After the changes for LED `num` and a color, that LED shows the color
/// and every other LED shows what it showed before.
pub proof fn lemma_painted(lit: Set<Cell>, num: u8, color: LedColor, other: u8)
    requires
        num <= 23,
        other <= 23,
    ensures
        shown(applied(lit, led_updates(num, color)), num) == color,
        other != num ==> shown(applied(lit, led_updates(num, color)), other) == shown(lit, other),
{
    let ups = led_updates(num, color);
    let red = red_cell(num);
    let green = green_cell(num);
    lemma_cells_distinct(num, num);
    lemma_cells_distinct(num, other);
    lemma_cells_distinct(other, num);
    let s0 = lit;
    let s1 = changed(s0, red, false);
    let s2 = changed(s1, green, false);
    let s3 = if color.red() {
        changed(s2, red, true)
    } else {
        s2
    };
    let s4 = if color.green() {
        changed(s3, green, true)
    } else {
        s3
    };
    let base = seq![(red, false), (green, false)];
    let none = Seq::<(Cell, bool)>::empty();
    let one = seq![(red, false)];
    assert(applied(s0, none) == s0);
    assert(one.drop_last() =~= none);
    assert(one.last() == (red, false));
    assert(applied(s0, one) == s1);
    assert(base.drop_last() =~= one);
    assert(base.last() == (green, false));
    assert(applied(s0, base) == s2);
    let with_red = if color.red() {
        base.push((red, true))
    } else {
        base
    };
    if color.red() {
        assert(with_red.drop_last() =~= base);
    }
    assert(applied(s0, with_red) == s3);
    let with_green = if color.green() {
        with_red.push((green, true))
    } else {
        with_red
    };
    if color.green() {
        assert(with_green.drop_last() =~= with_red);
    }
    assert(applied(s0, with_green) == s4);
    assert(ups =~= with_green);
}

} // verus!
