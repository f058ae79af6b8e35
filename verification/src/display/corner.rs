//! The four corner-dot indicators that show the minutes past the last
//! five-minute boundary. They sit on columns beyond the letter grid, so
//! their masks use the low bits that no word of the grid touches.

use vstd::prelude::*;

verus! {

pub const TOP_LEFT: (usize, u16) = (0, 0b00000000000_1000_0);

pub const TOP_RIGHT: (usize, u16) = (0, 0b00000000000_0100_0);

pub const BOTTOM_LEFT: (usize, u16) = (9, 0b00000000000_1000_0);

pub const BOTTOM_RIGHT: (usize, u16) = (9, 0b00000000000_0100_0);

} // verus!
