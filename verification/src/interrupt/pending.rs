//! The interrupt set-pending and clear-pending registers: one bit per
//! hardware interrupt line.

use vstd::prelude::*;
use crate::interrupt::Hardware;

verus! {

/// Interrupt set-pending register.
#[derive(Copy, Clone, Debug)]
pub struct ISPR(pub u32);

/// Interrupt clear-pending register.
#[derive(Copy, Clone, Debug)]
pub struct ICPR(pub u32);

impl ISPR {
    /// Request the line's interrupt be marked pending.
    pub fn set_pending(&mut self, hardware: Hardware)
        ensures
            final(self).0 == old(self).0 | (1u32 << hardware.spec_line() as u32),
    {
        let interrupt = hardware.line();

        self.0 |= 0b1u32 << (interrupt as u32);
    }

    /// Whether the line's interrupt is pending.
    pub fn interrupt_is_pending(&self, hardware: Hardware) -> (r: bool)
        ensures
            r == (self.0 & (1u32 << hardware.spec_line() as u32) != 0),
    {
        let interrupt = hardware.line();
        self.0 & (0b1u32 << (interrupt as u32)) != 0
    }
}

impl ICPR {
    /// Request the line's pending flag be cleared.
    pub fn clear_pending(&mut self, hardware: Hardware)
        ensures
            final(self).0 == old(self).0 | (1u32 << hardware.spec_line() as u32),
    {
        let interrupt = hardware.line();

        self.0 |= 0b1u32 << (interrupt as u32);
    }
}

} // verus!
