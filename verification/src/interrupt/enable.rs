//! The interrupt set-enable and clear-enable registers: one bit per
//! hardware interrupt line.

use vstd::prelude::*;
use crate::interrupt::Hardware;

verus! {

/// Interrupt set-enable register.
#[derive(Copy, Clone, Debug)]
pub struct ISER(pub u32);

/// Interrupt clear-enable register.
#[derive(Copy, Clone, Debug)]
pub struct ICER(pub u32);

impl ISER {
    /// Request the line's interrupt be enabled.
    pub fn enable_interrupt(&mut self, hardware: Hardware)
        ensures
            final(self).0 == old(self).0 | (1u32 << hardware.spec_line() as u32),
    {
        let interrupt = hardware.line();

        self.0 |= 0b1u32 << (interrupt as u32);
    }

    /// Whether the line's interrupt is enabled.
    pub fn interrupt_is_enabled(&self, hardware: Hardware) -> (r: bool)
        ensures
            r == (self.0 & (1u32 << hardware.spec_line() as u32) != 0),
    {
        let interrupt = hardware.line();
        self.0 & (0b1u32 << (interrupt as u32)) != 0
    }
}

impl ICER {
    /// Request the line's interrupt be disabled.
    pub fn disable_interrupt(&mut self, hardware: Hardware)
        ensures
            final(self).0 == old(self).0 | (1u32 << hardware.spec_line() as u32),
    {
        let interrupt = hardware.line();

        self.0 |= 0b1u32 << (interrupt as u32);
    }
}

} // verus!
