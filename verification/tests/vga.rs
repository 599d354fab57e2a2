use crab_vga::buffer::Grid;
use crab_vga::buffer::ScreenChar;
use crab_vga::color::Color;
use crab_vga::color::ColorCode;
use crab_vga::qemu::QemuExitCode;
use crab_vga::writer::Writer;
use crab_vga::BUFFER_HEIGHT;
use crab_vga::BUFFER_WIDTH;

fn fresh_writer() -> Writer {
    Writer::new(ColorCode::new(Color::LightGreen, Color::Black), Grid::new())
}

const GREEN_ON_BLACK: u8 = 10;

#[test]
fn color_code_packs_nibbles() {
    assert_eq!(ColorCode::new(Color::LightGreen, Color::Black).0, 0x0a);
    assert_eq!(ColorCode::new(Color::White, Color::Blue).0, 0x1f);
    assert_eq!(ColorCode::new(Color::Yellow, Color::DarkGray).0, 0x8e);
    assert_eq!(ColorCode::new(Color::Black, Color::Black).0, 0x00);
}

#[test]
fn grid_starts_zeroed() {
    let grid = Grid::new();
    for row in 0..BUFFER_HEIGHT {
        for col in 0..BUFFER_WIDTH {
            let cell = grid.read_at(row, col);
            assert_eq!(cell.ascii_character, 0);
            assert_eq!(cell.color_code.0, 0);
        }
    }
}

#[test]
fn grid_cell_round_trip() {
    let mut grid = Grid::new();
    let written = ScreenChar { ascii_character: b'Z', color_code: ColorCode(0x4e) };
    grid.write_at(3, 7, written);
    assert_eq!(grid.read_at(3, 7), written);
    // neighbours in every direction are untouched
    assert_eq!(grid.read_at(3, 6).ascii_character, 0);
    assert_eq!(grid.read_at(3, 8).ascii_character, 0);
    assert_eq!(grid.read_at(2, 7).ascii_character, 0);
    assert_eq!(grid.read_at(4, 7).ascii_character, 0);
    // overwriting the same cell returns the newest value
    let newer = ScreenChar { ascii_character: b'q', color_code: ColorCode(0x1f) };
    grid.write_at(3, 7, newer);
    assert_eq!(grid.read_at(3, 7), newer);
}

#[test]
fn write_byte_lands_on_bottom_row() {
    let mut w = fresh_writer();
    w.write_byte(b'A');
    assert_eq!(w.column_position(), 1);
    let cell = w.char_at(BUFFER_HEIGHT - 1, 0);
    assert_eq!(cell.ascii_character, b'A');
    assert_eq!(cell.color_code.0, GREEN_ON_BLACK);
}

#[test]
fn newline_scrolls_up_and_blanks_bottom() {
    let mut w = fresh_writer();
    w.write_string("ab\ncd");
    assert_eq!(w.column_position(), 2);
    assert_eq!(w.char_at(BUFFER_HEIGHT - 2, 0).ascii_character, b'a');
    assert_eq!(w.char_at(BUFFER_HEIGHT - 2, 1).ascii_character, b'b');
    assert_eq!(w.char_at(BUFFER_HEIGHT - 1, 0).ascii_character, b'c');
    assert_eq!(w.char_at(BUFFER_HEIGHT - 1, 1).ascii_character, b'd');
    // the rest of the bottom row was blanked by the scroll
    for col in 2..BUFFER_WIDTH {
        let cell = w.char_at(BUFFER_HEIGHT - 1, col);
        assert_eq!(cell.ascii_character, b' ');
        assert_eq!(cell.color_code.0, GREEN_ON_BLACK);
    }
}

#[test]
fn full_row_leaves_column_at_width_without_scroll() {
    let mut w = fresh_writer();
    for _ in 0..BUFFER_WIDTH {
        w.write_byte(b'x');
    }
    assert_eq!(w.column_position(), BUFFER_WIDTH);
    for col in 0..BUFFER_WIDTH {
        assert_eq!(w.char_at(BUFFER_HEIGHT - 1, col).ascii_character, b'x');
    }
    // no scroll: the row above is still in its initial zeroed state
    for col in 0..BUFFER_WIDTH {
        assert_eq!(w.char_at(BUFFER_HEIGHT - 2, col).ascii_character, 0);
    }
}

#[test]
fn overflow_byte_wraps_to_fresh_line() {
    let mut w = fresh_writer();
    for _ in 0..BUFFER_WIDTH {
        w.write_byte(b'x');
    }
    w.write_byte(b'y');
    // exactly one scroll: the full row moved up, the wrapping byte went
    // to column 0 of the new bottom row
    assert_eq!(w.column_position(), 1);
    assert_eq!(w.char_at(BUFFER_HEIGHT - 1, 0).ascii_character, b'y');
    for col in 0..BUFFER_WIDTH {
        assert_eq!(w.char_at(BUFFER_HEIGHT - 2, col).ascii_character, b'x');
    }
    for col in 1..BUFFER_WIDTH {
        assert_eq!(w.char_at(BUFFER_HEIGHT - 1, col).ascii_character, b' ');
    }
}

#[test]
fn unprintable_bytes_become_placeholder() {
    let mut w = fresh_writer();
    // below the printable range
    w.write_string("\x07");
    assert_eq!(w.char_at(BUFFER_HEIGHT - 1, 0).ascii_character, 0xfe);
    // a two-byte encoding: neither byte is printable ASCII
    w.write_string("é");
    assert_eq!(w.char_at(BUFFER_HEIGHT - 1, 1).ascii_character, 0xfe);
    assert_eq!(w.char_at(BUFFER_HEIGHT - 1, 2).ascii_character, 0xfe);
    // a four-byte encoding renders as four placeholders
    w.write_string("🦀");
    for col in 3..7 {
        assert_eq!(w.char_at(BUFFER_HEIGHT - 1, col).ascii_character, 0xfe);
    }
    assert_eq!(w.column_position(), 7);
}

#[test]
fn printable_range_bounds_pass_through() {
    let mut w = fresh_writer();
    w.write_byte(0x20);
    w.write_byte(0x7e);
    w.write_string("\x1f\x7f");
    assert_eq!(w.char_at(BUFFER_HEIGHT - 1, 0).ascii_character, 0x20);
    assert_eq!(w.char_at(BUFFER_HEIGHT - 1, 1).ascii_character, 0x7e);
    assert_eq!(w.char_at(BUFFER_HEIGHT - 1, 2).ascii_character, 0xfe);
    assert_eq!(w.char_at(BUFFER_HEIGHT - 1, 3).ascii_character, 0xfe);
}

#[test]
fn height_scrolls_blank_everything() {
    let mut w = fresh_writer();
    // fill every row with text so the whole grid is populated
    for _ in 0..BUFFER_HEIGHT {
        for _ in 0..BUFFER_WIDTH {
            w.write_byte(b'#');
        }
        w.write_byte(b'\n');
    }
    // one newline already blanked the bottom row, so HEIGHT - 1 more
    // scrolls blank the rest
    for _ in 0..BUFFER_HEIGHT - 1 {
        w.write_byte(b'\n');
    }
    for row in 0..BUFFER_HEIGHT {
        for col in 0..BUFFER_WIDTH {
            let cell = w.char_at(row, col);
            assert_eq!(cell.ascii_character, b' ');
            assert_eq!(cell.color_code.0, GREEN_ON_BLACK);
        }
    }
}

#[test]
fn scrolling_a_populated_bottom_row_keeps_it_until_height_scrolls() {
    let mut w = fresh_writer();
    // fill every cell, bottom row included: no trailing newline
    for _ in 0..BUFFER_HEIGHT * BUFFER_WIDTH {
        w.write_byte(b'#');
    }
    // HEIGHT - 1 scrolls: the old bottom row survives at the very top
    for _ in 0..BUFFER_HEIGHT - 1 {
        w.write_byte(b'\n');
    }
    for col in 0..BUFFER_WIDTH {
        assert_eq!(w.char_at(0, col).ascii_character, b'#');
    }
    for row in 1..BUFFER_HEIGHT {
        for col in 0..BUFFER_WIDTH {
            assert_eq!(w.char_at(row, col).ascii_character, b' ');
        }
    }
    // one more scroll blanks the whole grid
    w.write_byte(b'\n');
    for row in 0..BUFFER_HEIGHT {
        for col in 0..BUFFER_WIDTH {
            assert_eq!(w.char_at(row, col).ascii_character, b' ');
        }
    }
}

#[test]
fn bottom_row_holds_tail_after_wraps() {
    let mut w = fresh_writer();
    // 100 printable bytes from a blank screen: one wrap after 80, so the
    // bottom row starts with the last 20 and the column is 20
    for i in 0..100u32 {
        w.write_byte(b'a' + (i % 26) as u8);
    }
    assert_eq!(w.column_position(), 20);
    for col in 0..20 {
        let expected = b'a' + ((80 + col as u32) % 26) as u8;
        assert_eq!(w.char_at(BUFFER_HEIGHT - 1, col).ascii_character, expected);
    }
    // the wrapped-away first row sits one row above
    for col in 0..BUFFER_WIDTH {
        let expected = b'a' + (col as u32 % 26) as u8;
        assert_eq!(w.char_at(BUFFER_HEIGHT - 2, col).ascii_character, expected);
    }
}

#[test]
fn crabos_two_line_scenario() {
    let mut w = fresh_writer();
    w.write_string("CrabOS Supremacy");
    w.write_string("\n");
    let line = format!("some numbers: {} {}", 42, 1.33);
    assert_eq!(line, "some numbers: 42 1.33");
    w.write_string(&line);

    assert_eq!(w.column_position(), line.len());
    let first = "CrabOS Supremacy".as_bytes();
    for (col, expected) in first.iter().enumerate() {
        assert_eq!(w.char_at(BUFFER_HEIGHT - 2, col).ascii_character, *expected);
    }
    for (col, expected) in line.as_bytes().iter().enumerate() {
        assert_eq!(w.char_at(BUFFER_HEIGHT - 1, col).ascii_character, *expected);
    }
    // two populated rows at the bottom, and no scroll beyond the one
    // newline: everything above is still zeroed
    for row in 0..BUFFER_HEIGHT - 2 {
        for col in 0..BUFFER_WIDTH {
            assert_eq!(w.char_at(row, col).ascii_character, 0);
        }
    }
}

#[test]
fn trivial_assertion() {
    assert_eq!(1, 1);
}

#[test]
fn exit_codes_have_wire_values() {
    assert_eq!(QemuExitCode::Success.code(), 0x10);
    assert_eq!(QemuExitCode::Failed.code(), 0x11);
    assert_ne!(QemuExitCode::Success, QemuExitCode::Failed);
}
