//! Byte-by-byte rendering into the grid: line wrap, scroll-on-overflow,
//! and substitution of unprintable bytes.
//!
//! The writer's behaviour is pinned by a pure model over the grid's raw
//! byte pairs: `spec_write_byte` for one byte, `spec_write_string` for a
//! whole byte sequence, `spec_scroll` for one scroll. Every public method
//! ensures that its effect equals the model's.

use vstd::prelude::*;
use vstd::string::StringSliceAdditionalSpecFns;

use crate::buffer::Grid;
use crate::buffer::ScreenChar;
use crate::color::ColorCode;
use crate::BUFFER_AREA;
use crate::BUFFER_HEIGHT;
use crate::BUFFER_WIDTH;

verus! {

/// The byte that starts a new line.
pub const NEWLINE_BYTE: u8 = 10;

/// The byte rendered in place of one that is not printable.
pub const PLACEHOLDER_BYTE: u8 = 0xfe;

/// The byte a cleared cell shows.
pub const BLANK_BYTE: u8 = 32;

/// True of the bytes that render as themselves: printable ASCII.
pub open spec fn printable(b: u8) -> bool {
    0x20 <= b <= 0x7e
}

/// A byte as write_string renders it: printable bytes and the newline
/// pass through, anything else becomes the placeholder.
pub open spec fn sanitize_byte(b: u8) -> u8 {
    if printable(b) || b == NEWLINE_BYTE {
        b
    } else {
        PLACEHOLDER_BYTE
    }
}

/// Index of the cell at (row, col) in the row-major grid.
pub open spec fn cell_index(row: int, col: int) -> int {
    row * BUFFER_WIDTH + col
}

/// The grid after one scroll: every cell takes the value one row below,
/// and the bottom row becomes blanks in the given color.
pub open spec fn spec_scroll(g: Seq<(u8, u8)>, color: u8) -> Seq<(u8, u8)> {
    Seq::new(
        g.len(),
        |i: int|
            if i + BUFFER_WIDTH < g.len() {
                g[i + BUFFER_WIDTH]
            } else {
                (BLANK_BYTE, color)
            },
    )
}

/// Grid and cursor column after one write_byte: a newline scrolls and
/// returns to column 0; a full row scrolls first (wrap-before-write);
/// otherwise the byte lands at the cursor on the bottom row.
pub open spec fn spec_write_byte(g: Seq<(u8, u8)>, col: int, color: u8, b: u8) -> (Seq<(u8, u8)>, int) {
    if b == NEWLINE_BYTE {
        (spec_scroll(g, color), 0)
    } else if col >= BUFFER_WIDTH {
        (spec_scroll(g, color).update(cell_index(BUFFER_HEIGHT - 1, 0), (b, color)), 1)
    } else {
        (g.update(cell_index(BUFFER_HEIGHT - 1, col), (b, color)), col + 1)
    }
}

/// Grid and cursor column after write_string of the byte sequence s:
/// each byte is sanitized and then written in turn.
pub open spec fn spec_write_string(g: Seq<(u8, u8)>, col: int, color: u8, s: Seq<u8>) -> (Seq<(u8, u8)>, int)
    decreases s.len(),
{
    if s.len() == 0 {
        (g, col)
    } else {
        let prev = spec_write_string(g, col, color, s.drop_last());
        spec_write_byte(prev.0, prev.1, color, sanitize_byte(s.last()))
    }
}

/// Renders bytes into the bottom row of a grid, tracking the cursor
/// column and the color every written cell gets.
pub struct Writer {
    column_position: usize,
    color_code: ColorCode,
    grid: Grid,
}

impl Writer {
    /// The raw byte pairs of the grid, row-major.
    pub closed spec fn contents(&self) -> Seq<(u8, u8)> {
        self.grid@
    }

    /// The cursor column, between 0 and BUFFER_WIDTH inclusive.
    pub closed spec fn col(&self) -> int {
        self.column_position as int
    }

    /// The color byte every written cell gets.
    pub closed spec fn color(&self) -> u8 {
        self.color_code.0
    }

    /// Well-formed: a full-size grid, the cursor never past the row end.
    pub open spec fn wf(&self) -> bool {
        self.contents().len() == BUFFER_AREA && 0 <= self.col() <= BUFFER_WIDTH
    }

    /// A writer over the given grid, cursor at column 0.
    pub fn new(color_code: ColorCode, grid: Grid) -> (w: Writer)
        requires
            grid@.len() == BUFFER_AREA,
        ensures
            w.wf(),
            w.contents() == grid@,
            w.col() == 0,
            w.color() == color_code.0,
    {
        Writer { column_position: 0, color_code, grid }
    }

    /// The current cursor column.
    pub fn column_position(&self) -> (col: usize)
        ensures
            col as int == self.col(),
    {
        self.column_position
    }

    /// The cell at (row, col), read through the grid's volatile read.
    pub fn char_at(&self, row: usize, col: usize) -> (value: ScreenChar)
        requires
            self.wf(),
            row < BUFFER_HEIGHT,
            col < BUFFER_WIDTH,
        ensures
            value.pair() == self.contents()[cell_index(row as int, col as int)],
    {
        self.grid.read_at(row, col)
    }

    /// Fills every column of the given row with a blank cell in the
    /// current color.
    #[verifier::loop_isolation(false)]
    fn clear_row(&mut self, row: usize)
        requires
            old(self).wf(),
            row < BUFFER_HEIGHT,
        ensures
            final(self).wf(),
            final(self).col() == old(self).col(),
            final(self).color() == old(self).color(),
            forall|i: int|
                0 <= i < BUFFER_AREA ==> final(self).contents()[i] == (if cell_index(
                    row as int,
                    0,
                ) <= i < cell_index(row as int + 1, 0) {
                    (BLANK_BYTE, old(self).color())
                } else {
                    old(self).contents()[i]
                }),
    {
        let blank = ScreenChar { ascii_character: BLANK_BYTE, color_code: self.color_code };
        let mut c: usize = 0;
        while c < BUFFER_WIDTH
            invariant
                c <= BUFFER_WIDTH,
                self.column_position == old(self).column_position,
                self.color_code == old(self).color_code,
                self.grid@.len() == BUFFER_AREA,
                forall|i: int|
                    0 <= i < BUFFER_AREA ==> self.grid@[i] == (if cell_index(row as int, 0) <= i
                        < cell_index(row as int, 0) + c {
                        (BLANK_BYTE, old(self).color())
                    } else {
                        old(self).grid@[i]
                    }),
            decreases BUFFER_WIDTH - c,
        {
            self.grid.write_at(row, c, blank);
            c = c + 1;
        }
    }

    /// Scrolls: every row moves up by one, the bottom row is blanked in
    /// the current color, and the cursor returns to column 0.
    #[verifier::loop_isolation(false)]
    fn new_line(&mut self)
        requires
            old(self).wf(),
        ensures
            final(self).wf(),
            final(self).color() == old(self).color(),
            final(self).col() == 0,
            final(self).contents() == spec_scroll(old(self).contents(), old(self).color()),
    {
        let mut row: usize = 1;
        while row < BUFFER_HEIGHT
            invariant
                1 <= row <= BUFFER_HEIGHT,
                self.column_position == old(self).column_position,
                self.color_code == old(self).color_code,
                self.grid@.len() == BUFFER_AREA,
                forall|i: int|
                    0 <= i < cell_index(row as int - 1, 0) ==> self.grid@[i] == old(self).grid@[i
                        + BUFFER_WIDTH],
                forall|i: int|
                    cell_index(row as int - 1, 0) <= i < BUFFER_AREA ==> self.grid@[i] == old(
                        self,
                    ).grid@[i],
            decreases BUFFER_HEIGHT - row,
        {
            let mut c: usize = 0;
            while c < BUFFER_WIDTH
                invariant
                    1 <= row < BUFFER_HEIGHT,
                    c <= BUFFER_WIDTH,
                    self.column_position == old(self).column_position,
                    self.color_code == old(self).color_code,
                    self.grid@.len() == BUFFER_AREA,
                    forall|i: int|
                        0 <= i < cell_index(row as int - 1, 0) + c ==> self.grid@[i] == old(
                            self,
                        ).grid@[i + BUFFER_WIDTH],
                    forall|i: int|
                        cell_index(row as int - 1, 0) + c <= i < BUFFER_AREA ==> self.grid@[i]
                            == old(self).grid@[i],
                decreases BUFFER_WIDTH - c,
            {
                let value = self.grid.read_at(row, c);
                self.grid.write_at(row - 1, c, value);
                c = c + 1;
            }
            row = row + 1;
        }
        self.clear_row(BUFFER_HEIGHT - 1);
        self.column_position = 0;
        proof {
            assert(self.grid@ =~= spec_scroll(old(self).grid@, old(self).color_code.0));
        }
    }

    /// Renders one byte: the newline byte scrolls; any other byte lands
    /// at the cursor on the bottom row in the current color, after a
    /// scroll when the row is already full (the wrapping byte goes to
    /// column 0 of the fresh line, it is never dropped).
    pub fn write_byte(&mut self, byte: u8)
        requires
            old(self).wf(),
        ensures
            final(self).wf(),
            final(self).color() == old(self).color(),
            final(self).contents() == spec_write_byte(
                old(self).contents(),
                old(self).col(),
                old(self).color(),
                byte,
            ).0,
            final(self).col() == spec_write_byte(
                old(self).contents(),
                old(self).col(),
                old(self).color(),
                byte,
            ).1,
    {
        if byte == NEWLINE_BYTE {
            self.new_line();
        } else {
            if self.column_position >= BUFFER_WIDTH {
                self.new_line();
            }
            let row: usize = BUFFER_HEIGHT - 1;
            let col: usize = self.column_position;
            let color_code = self.color_code;
            self.grid.write_at(row, col, ScreenChar { ascii_character: byte, color_code });
            self.column_position = col + 1;
        }
    }

    /// Renders every byte of the string's UTF-8 encoding in turn:
    /// printable bytes and newlines pass through to write_byte, every
    /// other byte is rendered as the placeholder. Total: every input
    /// byte produces exactly one cell or a scroll, none is rejected.
    #[verifier::loop_isolation(false)]
    pub fn write_string(&mut self, s: &str)
        requires
            old(self).wf(),
        ensures
            final(self).wf(),
            final(self).color() == old(self).color(),
            final(self).contents() == spec_write_string(
                old(self).contents(),
                old(self).col(),
                old(self).color(),
                s.spec_bytes(),
            ).0,
            final(self).col() == spec_write_string(
                old(self).contents(),
                old(self).col(),
                old(self).color(),
                s.spec_bytes(),
            ).1,
    {
        let bytes = s.as_bytes();
        let mut i: usize = 0;
        while i < bytes.len()
            invariant
                i <= bytes@.len(),
                self.wf(),
                self.color() == old(self).color(),
                (self.contents(), self.col()) == spec_write_string(
                    old(self).contents(),
                    old(self).col(),
                    old(self).color(),
                    bytes@.take(i as int),
                ),
            decreases bytes@.len() - i,
        {
            let b: u8 = bytes[i];
            proof {
                assert(bytes@.take(i + 1).drop_last() =~= bytes@.take(i as int));
                assert(bytes@.take(i + 1).last() == bytes@[i as int]);
            }
            if (0x20 <= b && b <= 0x7e) || b == NEWLINE_BYTE {
                self.write_byte(b);
            } else {
                self.write_byte(PLACEHOLDER_BYTE);
            }
            i = i + 1;
        }
        proof {
            assert(bytes@.take(bytes@.len() as int) =~= bytes@);
        }
    }
}

/// Render step of the formatted-output entry point: the surrounding
/// channel formats the arguments and holds the lock on the one shared
/// writer, then hands the rendered text here to go through write_string
/// unchanged.
pub fn _print(writer: &mut Writer, args: &str)
    requires
        old(writer).wf(),
    ensures
        final(writer).wf(),
        final(writer).color() == old(writer).color(),
        final(writer).contents() == spec_write_string(
            old(writer).contents(),
            old(writer).col(),
            old(writer).color(),
            args.spec_bytes(),
        ).0,
        final(writer).col() == spec_write_string(
            old(writer).contents(),
            old(writer).col(),
            old(writer).color(),
            args.spec_bytes(),
        ).1,
{
    writer.write_string(args)
}

} // verus!
