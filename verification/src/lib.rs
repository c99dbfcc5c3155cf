//! An interactive Game of Life sandbox: a square grid of cells is edited with
//! a wrapping cursor, then evolved under the B3/S23 rule for a fixed number of
//! generations. The grid model, the neighbor counting, the generation stepper
//! and the session state machine live here; terminal input and output are left
//! to the caller.

use vstd::prelude::*;

pub mod cursor;
pub mod grid;
pub mod session;

verus! {

/// Side length of the session's square grid.
pub const SIDE_LENGTH: usize = 40;

/// Number of generations a simulation runs for.
pub const GENERATIONS: u32 = 500;

/// Pause between rendered generations, in milliseconds.
pub const FRAME_DELAY_MS: u64 = 100;

} // verus!
