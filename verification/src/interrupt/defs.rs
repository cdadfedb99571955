//! Bit definitions for the nested vectored interrupt controller.

use vstd::prelude::*;

verus! {

pub const IPR_PRIORITY_FIELD_MASK: u32 = 0b11 << 6;

pub const IPR_PRIORITY_HIGHEST: u32 = 0b00 << 6;
pub const IPR_PRIORITY_HIGH: u32 = 0b01 << 6;
pub const IPR_PRIORITY_LOW: u32 = 0b10 << 6;
pub const IPR_PRIORITY_LOWEST: u32 = 0b11 << 6;

} // verus!
