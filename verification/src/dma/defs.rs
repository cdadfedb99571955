//! Bit definitions for the DMA channel registers.

use vstd::prelude::*;

verus! {

// ------------------------------------
// IFCR per-channel clear bits; each channel owns a 4-bit group
// ------------------------------------
pub const DMA_CGIF_1: u32 = 0b1;
pub const DMA_CTCIF_1: u32 = 0b1 << 1;
pub const DMA_CHTIF_1: u32 = 0b1 << 2;
pub const DMA_CTEIF_1: u32 = 0b1 << 3;

// ------------------------------------
// CCR bit definitions
// ------------------------------------
pub const CCR_EN: u32 = 0b1;
pub const CCR_TCIE: u32 = 0b1 << 1;
pub const CCR_HTIE: u32 = 0b1 << 2;
pub const CCR_TEIE: u32 = 0b1 << 3;
pub const CCR_DIR: u32 = 0b1 << 4;
pub const CCR_CIRC: u32 = 0b1 << 5;
pub const CCR_PINC: u32 = 0b1 << 6;
pub const CCR_MINC: u32 = 0b1 << 7;
pub const CCR_PSIZE0: u32 = 0b1 << 8;
pub const CCR_PSIZE1: u32 = 0b1 << 9;
pub const CCR_MSIZE0: u32 = 0b1 << 10;
pub const CCR_MSIZE1: u32 = 0b1 << 11;
pub const CCR_PL0: u32 = 0b1 << 12;
pub const CCR_PL1: u32 = 0b1 << 13;
pub const CCR_MEM2MEM: u32 = 0b1 << 14;

} // verus!
