//! USART interrupt flag clear register.

use vstd::prelude::*;
use crate::usart::defs::{ICR_ORECF, ICR_IDLECF, ICR_TCCF};

verus! {

/// Write-1-to-clear flags of the USART.
#[derive(Copy, Clone, Debug)]
pub struct ICR(pub u32);

impl ICR {
    /// Request the overrun flag be cleared.
    pub fn clear_ore(&mut self)
        ensures
            final(self).0 == old(self).0 | ICR_ORECF,
    {
        self.0 |= ICR_ORECF;
    }

    /// Request the idle-line flag be cleared.
    pub fn clear_idle(&mut self)
        ensures
            final(self).0 == old(self).0 | ICR_IDLECF,
    {
        self.0 |= ICR_IDLECF;
    }

    /// Request the transmission-complete flag be cleared.
    pub fn clear_tc(&mut self)
        ensures
            final(self).0 == old(self).0 | ICR_TCCF,
    {
        self.0 |= ICR_TCCF;
    }
}

} // verus!
