//! DMA interrupt flag clear register: each channel owns a group of four
//! write-1-to-clear bits.

use vstd::prelude::*;
use crate::dma::defs::{DMA_CGIF_1, DMA_CTCIF_1, DMA_CHTIF_1, DMA_CTEIF_1};

verus! {

/// DMA interrupt flag clear register.
#[derive(Copy, Clone, Debug)]
pub struct IFCR(pub u32);

impl IFCR {
    /// Request the channel's global interrupt flag be cleared.
    pub fn channel_global_interrupt_clear(&mut self, chan: crate::dma::DMAChannel)
        ensures
            final(self).0 == old(self).0 | (DMA_CGIF_1 << ((4 * chan.spec_index()) as u32)),
    {
        let sh: u32 = 4 * chan.index();
        self.0 |= DMA_CGIF_1 << sh;
    }

    /// Request the channel's transfer-complete flag be cleared.
    pub fn channel_transfer_complete_clear(&mut self, chan: crate::dma::DMAChannel)
        ensures
            final(self).0 == old(self).0 | (DMA_CTCIF_1 << ((4 * chan.spec_index()) as u32)),
    {
        let sh: u32 = 4 * chan.index();
        self.0 |= DMA_CTCIF_1 << sh;
    }

    /// Request the channel's half-transfer flag be cleared.
    pub fn channel_half_transfer_clear(&mut self, chan: crate::dma::DMAChannel)
        ensures
            final(self).0 == old(self).0 | (DMA_CHTIF_1 << ((4 * chan.spec_index()) as u32)),
    {
        let sh: u32 = 4 * chan.index();
        self.0 |= DMA_CHTIF_1 << sh;
    }

    /// Request the channel's transfer-error flag be cleared.
    pub fn channel_transfer_error_clear(&mut self, chan: crate::dma::DMAChannel)
        ensures
            final(self).0 == old(self).0 | (DMA_CTEIF_1 << ((4 * chan.spec_index()) as u32)),
    {
        let sh: u32 = 4 * chan.index();
        self.0 |= DMA_CTEIF_1 << sh;
    }
}

} // verus!
