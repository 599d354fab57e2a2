//! Text-output driver for a fixed-size character display: a writer that
//! renders bytes into a HEIGHT x WIDTH grid of (character, color) cells
//! with automatic line wrapping and scroll-on-overflow, every grid access
//! going through a volatile cell.

use vstd::prelude::*;

pub mod buffer;
pub mod color;
pub mod laws;
pub mod qemu;
pub mod writer;

verus! {

/// Number of character rows in the display grid.
pub const BUFFER_HEIGHT: usize = 25;

/// Number of character columns in each row.
pub const BUFFER_WIDTH: usize = 80;

/// Total number of cells in the grid.
pub const BUFFER_AREA: usize = 2000;

} // verus!
