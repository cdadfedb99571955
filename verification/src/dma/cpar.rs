//! DMA channel peripheral address register.

use vstd::prelude::*;

verus! {

/// Holds the address of the peripheral register the channel talks to.
#[derive(Copy, Clone, Debug)]
pub struct CPAR(pub u32);

impl CPAR {
    /// Set the peripheral address.
    pub fn set_pa(&mut self, periph_addr: u32)
        ensures
            final(self).0 == periph_addr,
    {
        self.0 = periph_addr;
    }
}

} // verus!
