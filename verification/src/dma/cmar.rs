//! DMA channel memory address register.

use vstd::prelude::*;

verus! {

/// Holds the base address of the memory area a channel reads from or
/// writes to.
#[derive(Copy, Clone, Debug)]
pub struct CMAR(pub u32);

impl CMAR {
    /// Set the memory address.
    pub fn set_ma(&mut self, mem_addr: u32)
        ensures
            final(self).0 == mem_addr,
    {
        self.0 = mem_addr;
    }
}

} // verus!
