//! Bit definitions for the GPIO port registers.

use vstd::prelude::*;

verus! {

// MODER: one 2-bit mode field per pin.
pub const MODE_MASK: u32 = 0b11;
pub const MODE_INPUT: u32 = 0b00;
pub const MODE_OUTPUT: u32 = 0b01;
pub const MODE_ALTERNATE: u32 = 0b10;
pub const MODE_ANALOG: u32 = 0b11;

// OTYPER: one bit per pin.
pub const TYPE_PUSHPULL: u32 = 0b0;
pub const TYPE_OPENDRAIN: u32 = 0b1;

// OSPEEDR: one 2-bit speed field per pin; 0b10 is a second encoding of low.
pub const SPEED_MASK: u32 = 0b11;
pub const SPEED_LOW: u32 = 0b00;
pub const SPEED_LOW_ALT: u32 = 0b10;
pub const SPEED_MEDIUM: u32 = 0b01;
pub const SPEED_HIGH: u32 = 0b11;

// PUPDR: one 2-bit pull field per pin; 0b11 is reserved.
pub const PUPD_MASK: u32 = 0b11;
pub const PUPD_NEITHER: u32 = 0b00;
pub const PUPD_UP: u32 = 0b01;
pub const PUPD_DOWN: u32 = 0b10;

// AFRL/AFRH: one 4-bit alternate-function field per pin.
pub const AFR_MASK: u32 = 0b1111;
pub const AF0: u32 = 0;
pub const AF1: u32 = 1;
pub const AF2: u32 = 2;
pub const AF3: u32 = 3;
pub const AF4: u32 = 4;
pub const AF5: u32 = 5;
pub const AF6: u32 = 6;
pub const AF7: u32 = 7;

// BSRR: the reset half of the register starts at bit 16.
pub const BSRR_RESET_OFFSET: u32 = 16;

} // verus!
