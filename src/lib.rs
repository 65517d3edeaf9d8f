//! Text output for a memory-mapped 80x25 VGA text grid: a cell codec, a
//! writer with line wrap and scrolling, and the pieces of a small test harness.

pub mod cell;
pub mod console;
pub mod grid;
pub mod harness;
pub mod laws;
pub mod writer;
