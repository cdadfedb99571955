//! Bit definitions for the analog-to-digital converter registers.

use vstd::prelude::*;

verus! {

// ------------------------------------
// ISR bit definitions
// ------------------------------------
pub const ISR_ADRDY: u32 = 0b1;

// ------------------------------------
// IER bit definitions
// ------------------------------------
pub const IER_ADRDYIE: u32 = 0b1;
pub const IER_EOSMPIE: u32 = 0b1 << 1;
pub const IER_EOCIE: u32 = 0b1 << 2;
pub const IER_EOSEQIE: u32 = 0b1 << 3;
pub const IER_OVRIE: u32 = 0b1 << 4;

// ------------------------------------
// CR bit definitions
// ------------------------------------
pub const CR_ADEN: u32 = 0b1;
pub const CR_ADDIS: u32 = 0b1 << 1;
pub const CR_ADSTART: u32 = 0b1 << 2;
pub const CR_ADCAL: u32 = 0b1 << 31;

// ------------------------------------
// DR bit definitions
// ------------------------------------
pub const DR_CALFACT_MASK: u32 = 0x7F;

} // verus!
