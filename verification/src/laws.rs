//! Laws of the rendering model: no aliasing between cells, wrap and
//! scroll behaviour of printable runs, repeated scrolls blanking the
//! grid, and the bottom row tracking the tail of what was written.

use vstd::prelude::*;

use crate::writer::cell_index;
use crate::writer::printable;
use crate::writer::sanitize_byte;
use crate::writer::spec_scroll;
use crate::writer::spec_write_string;
use crate::writer::BLANK_BYTE;
use crate::writer::NEWLINE_BYTE;
use crate::writer::PLACEHOLDER_BYTE;
use crate::BUFFER_AREA;
use crate::BUFFER_HEIGHT;
use crate::BUFFER_WIDTH;

verus! {

/// Every in-bounds position has an in-bounds cell index.
pub proof fn lemma_cell_index_bounds(row: int, col: int)
    requires
        0 <= row < BUFFER_HEIGHT,
        0 <= col < BUFFER_WIDTH,
    ensures
        0 <= cell_index(row, col) < BUFFER_AREA,
{
    assert(row * BUFFER_WIDTH <= (BUFFER_HEIGHT - 1) * BUFFER_WIDTH) by (nonlinear_arith)
        requires
            row <= BUFFER_HEIGHT - 1,
    ;
}

/// Distinct in-bounds positions have distinct cell indices.
pub proof fn lemma_cell_index_injective(r1: int, c1: int, r2: int, c2: int)
    requires
        0 <= r1 < BUFFER_HEIGHT,
        0 <= c1 < BUFFER_WIDTH,
        0 <= r2 < BUFFER_HEIGHT,
        0 <= c2 < BUFFER_WIDTH,
        cell_index(r1, c1) == cell_index(r2, c2),
    ensures
        r1 == r2,
        c1 == c2,
{
    assert(r1 == r2) by (nonlinear_arith)
        requires
            0 <= c1 < BUFFER_WIDTH,
            0 <= c2 < BUFFER_WIDTH,
            r1 * BUFFER_WIDTH + c1 == r2 * BUFFER_WIDTH + c2,
    ;
}

/// Law: writing a cell at (row, col) and then reading any position
/// returns the value just written there and the old value everywhere
/// else — no write reaches a second cell.
pub proof fn lemma_cell_round_trip(
    g: Seq<(u8, u8)>,
    row: int,
    col: int,
    row2: int,
    col2: int,
    value: (u8, u8),
)
    requires
        g.len() == BUFFER_AREA,
        0 <= row < BUFFER_HEIGHT,
        0 <= col < BUFFER_WIDTH,
        0 <= row2 < BUFFER_HEIGHT,
        0 <= col2 < BUFFER_WIDTH,
    ensures
        g.update(cell_index(row, col), value)[cell_index(row2, col2)] == (if row == row2 && col
            == col2 {
            value
        } else {
            g[cell_index(row2, col2)]
        }),
{
    lemma_cell_index_bounds(row, col);
    lemma_cell_index_bounds(row2, col2);
    if row == row2 && col == col2 {
    } else {
        if cell_index(row, col) == cell_index(row2, col2) {
            lemma_cell_index_injective(row, col, row2, col2);
        }
    }
}

/// Writing any byte sequence keeps the grid's size and leaves the
/// cursor between 0 and BUFFER_WIDTH.
pub proof fn lemma_write_string_wf(g: Seq<(u8, u8)>, col: int, color: u8, s: Seq<u8>)
    requires
        g.len() == BUFFER_AREA,
        0 <= col <= BUFFER_WIDTH,
    ensures
        spec_write_string(g, col, color, s).0.len() == BUFFER_AREA,
        0 <= spec_write_string(g, col, color, s).1 <= BUFFER_WIDTH,
    decreases s.len(),
{
    if s.len() > 0 {
        lemma_write_string_wf(g, col, color, s.drop_last());
    }
}

/// Writing a run of printable bytes that fits in the current row fills
/// exactly the consecutive bottom-row cells from the cursor on and
/// advances the cursor by the run's length; no other cell changes and
/// nothing scrolls.
pub proof fn lemma_write_run_fits(g: Seq<(u8, u8)>, col: int, color: u8, s: Seq<u8>)
    requires
        g.len() == BUFFER_AREA,
        0 <= col,
        col + s.len() <= BUFFER_WIDTH,
        forall|k: int| 0 <= k < s.len() ==> printable(#[trigger] s[k]),
    ensures
        spec_write_string(g, col, color, s).1 == col + s.len(),
        spec_write_string(g, col, color, s).0.len() == BUFFER_AREA,
        forall|i: int|
            0 <= i < BUFFER_AREA ==> spec_write_string(g, col, color, s).0[i] == (if cell_index(
                BUFFER_HEIGHT - 1,
                col,
            ) <= i < cell_index(BUFFER_HEIGHT - 1, col + s.len()) {
                (s[i - cell_index(BUFFER_HEIGHT - 1, col)], color)
            } else {
                g[i]
            }),
    decreases s.len(),
{
    if s.len() > 0 {
        lemma_write_run_fits(g, col, color, s.drop_last());
    }
}

/// Law: writing exactly one full row of printable bytes from column 0
/// leaves the cursor at BUFFER_WIDTH and scrolls nothing: the rows above
/// the bottom keep their cells, and the bottom row holds the bytes.
pub proof fn lemma_full_row_no_scroll(g: Seq<(u8, u8)>, color: u8, s: Seq<u8>)
    requires
        g.len() == BUFFER_AREA,
        s.len() == BUFFER_WIDTH,
        forall|k: int| 0 <= k < s.len() ==> printable(#[trigger] s[k]),
    ensures
        spec_write_string(g, 0, color, s).1 == BUFFER_WIDTH,
        forall|i: int|
            0 <= i < cell_index(BUFFER_HEIGHT - 1, 0) ==> spec_write_string(g, 0, color, s).0[i]
                == g[i],
        forall|j: int|
            0 <= j < BUFFER_WIDTH ==> spec_write_string(g, 0, color, s).0[cell_index(
                BUFFER_HEIGHT - 1,
                j,
            )] == (s[j], color),
{
    lemma_write_run_fits(g, 0, color, s);
    assert forall|j: int| 0 <= j < BUFFER_WIDTH implies spec_write_string(g, 0, color, s).0[
        cell_index(BUFFER_HEIGHT - 1, j)] == (s[j], color) by {
        lemma_cell_index_bounds(BUFFER_HEIGHT - 1, j);
    }
}

/// Law: one more printable byte after a full row scrolls exactly once
/// and lands at column 0 of the fresh bottom row, the cursor at 1.
pub proof fn lemma_overflow_scrolls_once(g: Seq<(u8, u8)>, color: u8, s: Seq<u8>, b: u8)
    requires
        g.len() == BUFFER_AREA,
        s.len() == BUFFER_WIDTH,
        forall|k: int| 0 <= k < s.len() ==> printable(#[trigger] s[k]),
        printable(b),
    ensures
        spec_write_string(g, 0, color, s.push(b)).1 == 1,
        spec_write_string(g, 0, color, s.push(b)).0 == spec_scroll(
            spec_write_string(g, 0, color, s).0,
            color,
        ).update(cell_index(BUFFER_HEIGHT - 1, 0), (b, color)),
{
    assert(s.push(b).drop_last() =~= s);
    assert(s.push(b).last() == b);
    lemma_write_run_fits(g, 0, color, s);
}

/// The grid after n scrolls in a row.
pub open spec fn spec_scroll_n(g: Seq<(u8, u8)>, color: u8, n: nat) -> Seq<(u8, u8)>
    decreases n,
{
    if n == 0 {
        g
    } else {
        spec_scroll(spec_scroll_n(g, color, (n - 1) as nat), color)
    }
}

/// After n scrolls every cell shows what stood n rows below it, and the
/// bottom n rows are blank.
pub proof fn lemma_scroll_n(g: Seq<(u8, u8)>, color: u8, n: nat)
    requires
        g.len() == BUFFER_AREA,
    ensures
        spec_scroll_n(g, color, n).len() == BUFFER_AREA,
        forall|i: int|
            0 <= i < BUFFER_AREA ==> spec_scroll_n(g, color, n)[i] == (if i + n * BUFFER_WIDTH
                < BUFFER_AREA {
                g[i + n * BUFFER_WIDTH]
            } else {
                (BLANK_BYTE, color)
            }),
    decreases n,
{
    if n > 0 {
        lemma_scroll_n(g, color, (n - 1) as nat);
        assert((n - 1) * BUFFER_WIDTH == n * BUFFER_WIDTH - BUFFER_WIDTH) by (nonlinear_arith);
    }
}

/// Law: scrolling BUFFER_HEIGHT - 1 times from a grid whose bottom row
/// is already blank leaves every cell blank. (From a grid whose bottom
/// row holds text, that row's cells survive at the top; scrolling
/// BUFFER_HEIGHT times blanks any grid, see below.)
pub proof fn lemma_scroll_height_minus_one_blanks(g: Seq<(u8, u8)>, color: u8)
    requires
        g.len() == BUFFER_AREA,
        forall|c: int|
            0 <= c < BUFFER_WIDTH ==> g[#[trigger] cell_index(BUFFER_HEIGHT - 1, c)] == (
            BLANK_BYTE,
            color,
            ),
    ensures
        forall|i: int|
            0 <= i < BUFFER_AREA ==> #[trigger] spec_scroll_n(g, color, (BUFFER_HEIGHT - 1) as nat)[i]
                == (BLANK_BYTE, color),
{
    lemma_scroll_n(g, color, (BUFFER_HEIGHT - 1) as nat);
    assert forall|i: int| 0 <= i < BUFFER_AREA implies #[trigger] spec_scroll_n(
        g,
        color,
        (BUFFER_HEIGHT - 1) as nat,
    )[i] == (BLANK_BYTE, color) by {
        if i + (BUFFER_HEIGHT - 1) * BUFFER_WIDTH < BUFFER_AREA {
            assert(g[cell_index(BUFFER_HEIGHT - 1, i)] == (BLANK_BYTE, color));
        }
    }
}

/// Law: scrolling BUFFER_HEIGHT times leaves every cell of any grid
/// blank.
pub proof fn lemma_scroll_height_blanks(g: Seq<(u8, u8)>, color: u8)
    requires
        g.len() == BUFFER_AREA,
    ensures
        forall|i: int|
            0 <= i < BUFFER_AREA ==> #[trigger] spec_scroll_n(g, color, BUFFER_HEIGHT as nat)[i]
                == (BLANK_BYTE, color),
{
    lemma_scroll_n(g, color, BUFFER_HEIGHT as nat);
}

/// Law: a byte that is neither printable nor the newline is rendered as
/// the placeholder; no byte other than the placeholder itself is ever
/// rendered as its unprintable self.
pub proof fn lemma_unprintable_becomes_placeholder(b: u8)
    requires
        !printable(b),
        b != NEWLINE_BYTE,
    ensures
        sanitize_byte(b) == PLACEHOLDER_BYTE,
        b != PLACEHOLDER_BYTE ==> sanitize_byte(b) != b,
{
}

/// The tail of a byte run since the last line break: what remains for
/// the bottom row after every newline and every wrap of a full row.
pub open spec fn row_tail(s: Seq<u8>) -> Seq<u8>
    decreases s.len(),
{
    if s.len() == 0 {
        Seq::empty()
    } else if s.last() == NEWLINE_BYTE {
        Seq::empty()
    } else if row_tail(s.drop_last()).len() >= BUFFER_WIDTH {
        seq![s.last()]
    } else {
        row_tail(s.drop_last()).push(s.last())
    }
}

/// True once a line break happened while writing s from a fresh line: a
/// newline byte, or a wrap of a full row.
pub open spec fn had_break(s: Seq<u8>) -> bool
    decreases s.len(),
{
    if s.len() == 0 {
        false
    } else {
        had_break(s.drop_last()) || s.last() == NEWLINE_BYTE || (s.last() != NEWLINE_BYTE
            && row_tail(s.drop_last()).len() >= BUFFER_WIDTH)
    }
}

/// Law: starting at column 0, after writing any sequence of printable
/// or newline bytes, the cursor column equals the number of bytes since
/// the last newline or wrap, and the bottom row holds exactly those
/// bytes in the current color — followed by blanks when a break has
/// happened, and by the grid's prior cells when none has.
pub proof fn lemma_bottom_row_is_tail(g: Seq<(u8, u8)>, color: u8, s: Seq<u8>)
    requires
        g.len() == BUFFER_AREA,
        forall|k: int| 0 <= k < s.len() ==> printable(#[trigger] s[k]) || s[k] == NEWLINE_BYTE,
    ensures
        row_tail(s).len() <= BUFFER_WIDTH,
        spec_write_string(g, 0, color, s).1 == row_tail(s).len(),
        forall|j: int|
            0 <= j < row_tail(s).len() ==> spec_write_string(g, 0, color, s).0[cell_index(
                BUFFER_HEIGHT - 1,
                j,
            )] == (row_tail(s)[j], color),
        forall|j: int|
            row_tail(s).len() <= j < BUFFER_WIDTH ==> spec_write_string(g, 0, color, s).0[
                #[trigger] cell_index(BUFFER_HEIGHT - 1, j)] == (if had_break(s) {
                (BLANK_BYTE, color)
            } else {
                g[cell_index(BUFFER_HEIGHT - 1, j)]
            }),
    decreases s.len(),
{
    if s.len() > 0 {
        let s0 = s.drop_last();
        let b = s.last();
        lemma_bottom_row_is_tail(g, color, s0);
        lemma_write_string_wf(g, 0, color, s0);
        let prev = spec_write_string(g, 0, color, s0);
        if b == NEWLINE_BYTE {
            assert forall|j: int| row_tail(s).len() <= j < BUFFER_WIDTH implies spec_write_string(
                g,
                0,
                color,
                s,
            ).0[#[trigger] cell_index(BUFFER_HEIGHT - 1, j)] == (BLANK_BYTE, color) by {
                lemma_cell_index_bounds(BUFFER_HEIGHT - 1, j);
            }
        } else {
            assert(sanitize_byte(b) == b);
            if row_tail(s0).len() >= BUFFER_WIDTH {
                lemma_cell_index_bounds(BUFFER_HEIGHT - 1, 0);
                assert forall|j: int| row_tail(s).len() <= j < BUFFER_WIDTH implies
                    spec_write_string(g, 0, color, s).0[#[trigger] cell_index(BUFFER_HEIGHT - 1, j)]
                        == (BLANK_BYTE, color) by {
                    lemma_cell_index_bounds(BUFFER_HEIGHT - 1, j);
                    lemma_cell_index_injective_contra(BUFFER_HEIGHT - 1, j, BUFFER_HEIGHT - 1, 0);
                }
            } else {
                lemma_cell_index_bounds(BUFFER_HEIGHT - 1, prev.1);
                assert forall|j: int| 0 <= j < BUFFER_WIDTH && j != row_tail(s0).len() implies
                    spec_write_string(g, 0, color, s).0[#[trigger] cell_index(BUFFER_HEIGHT - 1, j)]
                        == prev.0[cell_index(BUFFER_HEIGHT - 1, j)] by {
                    lemma_cell_index_bounds(BUFFER_HEIGHT - 1, j);
                    lemma_cell_index_injective_contra(BUFFER_HEIGHT - 1, j, BUFFER_HEIGHT - 1, prev.1);
                }
            }
        }
    }
}

/// Distinct in-bounds positions have distinct cell indices, stated for
/// direct use: the indices differ whenever the positions do.
pub proof fn lemma_cell_index_injective_contra(r1: int, c1: int, r2: int, c2: int)
    requires
        0 <= r1 < BUFFER_HEIGHT,
        0 <= c1 < BUFFER_WIDTH,
        0 <= r2 < BUFFER_HEIGHT,
        0 <= c2 < BUFFER_WIDTH,
        r1 != r2 || c1 != c2,
    ensures
        cell_index(r1, c1) != cell_index(r2, c2),
{
    if cell_index(r1, c1) == cell_index(r2, c2) {
        lemma_cell_index_injective(r1, c1, r2, c2);
    }
}

} // verus!
