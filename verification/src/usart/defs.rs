//! Bit definitions for the USART registers.

use vstd::prelude::*;

verus! {

// ------------------------------------
// CR1 bit definitions
// ------------------------------------
pub const CR1_UE: u32 = 0b1;
pub const CR1_RE: u32 = 0b1 << 2;
pub const CR1_TE: u32 = 0b1 << 3;
pub const CR1_RXNEIE: u32 = 0b1 << 5;
pub const CR1_TCIE: u32 = 0b1 << 6;
pub const CR1_TXEIE: u32 = 0b1 << 7;
pub const CR1_PS: u32 = 0b1 << 9;
pub const CR1_PCE: u32 = 0b1 << 10;
pub const CR1_M0: u32 = 0b1 << 12;
pub const CR1_OVER8: u32 = 0b1 << 15;
pub const CR1_M1: u32 = 0b1 << 28;

pub const CR1_MODE_MASK: u32 = CR1_RE | CR1_TE;
pub const CR1_PARITY_MASK: u32 = CR1_PCE | CR1_PS;
pub const CR1_WORD_MASK: u32 = CR1_M0 | CR1_M1;

// ------------------------------------
// CR2 bit definitions
// ------------------------------------
pub const CR2_STOP_MASK: u32 = 0b11 << 12;
pub const CR2_STOP_ONE: u32 = 0b00 << 12;
pub const CR2_STOP_HALF: u32 = 0b01 << 12;
pub const CR2_STOP_TWO: u32 = 0b10 << 12;
pub const CR2_STOP_ONE_AND_HALF: u32 = 0b11 << 12;

// ------------------------------------
// CR3 bit definitions
// ------------------------------------
pub const CR3_DMAR: u32 = 0b1 << 6;
pub const CR3_DMAT: u32 = 0b1 << 7;
pub const CR3_RTSE: u32 = 0b1 << 8;
pub const CR3_CTSE: u32 = 0b1 << 9;

pub const CR3_DMA_MASK: u32 = CR3_DMAR | CR3_DMAT;
pub const CR3_HFC_MASK: u32 = CR3_RTSE | CR3_CTSE;

// ------------------------------------
// ISR bit definitions
// ------------------------------------
pub const ISR_RXNE: u32 = 0b1 << 5;
pub const ISR_TC: u32 = 0b1 << 6;
pub const ISR_TXE: u32 = 0b1 << 7;

// ------------------------------------
// ICR bit definitions
// ------------------------------------
pub const ICR_ORECF: u32 = 0b1 << 3;
pub const ICR_IDLECF: u32 = 0b1 << 4;
pub const ICR_TCCF: u32 = 0b1 << 6;

// ------------------------------------
// BRR bit definitions
// ------------------------------------
pub const BRR_DIV_MASK: u32 = 0b1111;

} // verus!
