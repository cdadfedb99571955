//! Bit definitions for the system tick timer registers.

use vstd::prelude::*;

verus! {

pub const ENABLE: u32 = 0b1;
pub const TICKINT: u32 = 0b1 << 1;
pub const CLKSOURCE: u32 = 0b1 << 2;
pub const COUNTFLAG: u32 = 0b1 << 16;

pub const CURRENT: u32 = 0xFF_FFFF;
pub const RELOAD: u32 = 0xFF_FFFF;
pub const CLEAR_VALUE: u32 = 0;

} // verus!
