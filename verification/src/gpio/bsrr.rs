//! GPIO bit set/reset register: the low half sets a pin, the high half
//! resets it.

use vstd::prelude::*;
use crate::gpio::defs::BSRR_RESET_OFFSET;

verus! {

/// GPIO bit set/reset register.
#[derive(Copy, Clone, Debug)]
pub struct BSRR(pub u32);

impl BSRR {
    /// Request the specified port be driven high; the port must be a value in
    /// [0..15].
    pub fn set(&mut self, port: u8)
        requires
            port <= 15,
        ensures
            final(self).0 == old(self).0 | (1u32 << (port as u32)),
    {
        let sh: u32 = port as u32;
        self.0 |= 0b1u32 << sh;
    }

    /// Request the specified port be driven low; the port must be a value in
    /// [0..15].
    pub fn reset(&mut self, port: u8)
        requires
            port <= 15,
        ensures
            final(self).0 == old(self).0 | (1u32 << (port + BSRR_RESET_OFFSET) as u32),
    {
        let sh: u32 = (port as u32) + BSRR_RESET_OFFSET;
        self.0 |= 0b1u32 << sh;
    }
}

} // verus!
