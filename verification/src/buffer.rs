//! The character grid backing the visible display.
//!
//! Every cell is held in a `volatile::Volatile` wrapper, because the
//! backing memory may be observed or mutated by a component outside the
//! program's control: reads and writes must never be elided or reordered.
//! The wrapper is opaque to the verifier, so its one-value contents are
//! given a name (`volatile_cells`) that the trusted read and write
//! contracts share; everything above those three calls is verified.

use vstd::prelude::*;

use crate::color::ColorCode;
use crate::BUFFER_AREA;
use crate::BUFFER_HEIGHT;
use crate::BUFFER_WIDTH;

verus! {

/// One displayable position: a character byte paired with its color byte,
/// the two-byte encoding the display hardware expects.
#[derive(Clone, Copy, Debug, PartialEq, Eq, Structural)]
pub struct ScreenChar {
    pub ascii_character: u8,
    pub color_code: ColorCode,
}

impl ScreenChar {
    /// The cell as the raw byte pair the hardware sees:
    /// (character byte, color byte).
    pub open spec fn pair(self) -> (u8, u8) {
        (self.ascii_character, self.color_code.0)
    }
}

#[verifier::external_type_specification]
#[verifier::external_body]
#[verifier::reject_recursive_types(T)]
pub struct ExVolatile<T: Copy>(volatile::Volatile<T>);

/// What a volatile cell holds: the one stored value, as a raw byte pair.
pub uninterp spec fn volatile_cells(v: volatile::Volatile<ScreenChar>) -> Seq<(u8, u8)>;

/// Relies on volatile::Volatile::new: wraps the given value, which the
/// cell then holds; never panics.
#[verifier::external_body]
fn volatile_new(value: ScreenChar) -> (v: volatile::Volatile<ScreenChar>)
    ensures
        volatile_cells(v) == seq![value.pair()],
{
    volatile::Volatile::new(value)
}

/// Relies on volatile::Volatile::read: a volatile read returning a copy
/// of the held value; never panics.
#[verifier::external_body]
fn volatile_read(v: &volatile::Volatile<ScreenChar>) -> (value: ScreenChar)
    ensures
        seq![value.pair()] == volatile_cells(*v),
{
    v.read()
}

/// Relies on volatile::Volatile::write: a volatile write that sets the
/// held value; never panics.
#[verifier::external_body]
fn volatile_write(v: &mut volatile::Volatile<ScreenChar>, value: ScreenChar)
    ensures
        volatile_cells(*final(v)) == seq![value.pair()],
{
    v.write(value)
}

/// The full HEIGHT x WIDTH array of cells backing the visible display,
/// kept in row-major order: the cell at (row, col) is entry
/// row * BUFFER_WIDTH + col, matching the hardware's contiguous layout.
pub struct Grid {
    cells: Vec<volatile::Volatile<ScreenChar>>,
}

impl View for Grid {
    type V = Seq<(u8, u8)>;

    closed spec fn view(&self) -> Seq<(u8, u8)> {
        self.cells@.map(|_i: int, v: volatile::Volatile<ScreenChar>| volatile_cells(v)[0])
    }
}

impl Grid {
    /// A fresh process-local grid of BUFFER_AREA zeroed cells, the size
    /// and layout of the hardware buffer.
    #[verifier::loop_isolation(false)]
    pub fn new() -> (grid: Grid)
        ensures
            grid@.len() == BUFFER_AREA,
            forall|i: int| 0 <= i < BUFFER_AREA ==> grid@[i] == (0u8, 0u8),
    {
        let zero = ScreenChar { ascii_character: 0, color_code: ColorCode(0) };
        let mut cells: Vec<volatile::Volatile<ScreenChar>> = Vec::new();
        let mut i: usize = 0;
        while i < BUFFER_AREA
            invariant
                i <= BUFFER_AREA,
                cells@.len() == i,
                forall|j: int| 0 <= j < i ==> volatile_cells(#[trigger] cells@[j]) == seq![(0u8, 0u8)],
            decreases BUFFER_AREA - i,
        {
            let cell = volatile_new(zero);
            cells.push(cell);
            proof {
                assert(cells@[i as int] == cell);
                assert(forall|j: int| 0 <= j < i ==> cells@[j] == cells@.drop_last()[j]);
            }
            i = i + 1;
        }
        let grid = Grid { cells };
        proof {
            assert forall|k: int| 0 <= k < BUFFER_AREA implies grid@[k] == (0u8, 0u8) by {
                assert(volatile_cells(grid.cells@[k]) == seq![(0u8, 0u8)]);
            }
        }
        grid
    }

    /// Reads the cell at (row, col) through a volatile read.
    pub fn read_at(&self, row: usize, col: usize) -> (value: ScreenChar)
        requires
            self@.len() == BUFFER_AREA,
            row < BUFFER_HEIGHT,
            col < BUFFER_WIDTH,
        ensures
            value.pair() == self@[row * BUFFER_WIDTH + col],
    {
        let i: usize = row * BUFFER_WIDTH + col;
        let value = volatile_read(&self.cells[i]);
        proof {
            assert(volatile_cells(self.cells@[i as int])[0] == value.pair());
        }
        value
    }

    /// Writes the cell at (row, col) through a volatile write.
    pub fn write_at(&mut self, row: usize, col: usize, value: ScreenChar)
        requires
            old(self)@.len() == BUFFER_AREA,
            row < BUFFER_HEIGHT,
            col < BUFFER_WIDTH,
        ensures
            final(self)@ == old(self)@.update(row * BUFFER_WIDTH + col, value.pair()),
    {
        let i: usize = row * BUFFER_WIDTH + col;
        let cell = &mut self.cells[i];
        volatile_write(cell, value);
        proof {
            assert(self@ =~= old(self)@.update(i as int, value.pair()));
        }
    }
}

} // verus!
