//! DMA channel configuration register.

use vstd::prelude::*;
use crate::dma::defs::{
    CCR_EN, CCR_TCIE, CCR_HTIE, CCR_TEIE, CCR_DIR, CCR_CIRC, CCR_PINC, CCR_MINC, CCR_PSIZE0,
    CCR_PSIZE1, CCR_MSIZE0, CCR_MSIZE1, CCR_PL0, CCR_PL1, CCR_MEM2MEM,
};

verus! {

/// The direction of a channel's transfers.
#[derive(Copy, Clone, Debug, PartialEq, Eq, Structural)]
pub enum DataDirection {
    FromPeriph,
    FromMem,
}

/// Transfer element sizes for the peripheral and memory sides; the fourth
/// field encoding is reserved by the hardware.
#[derive(Copy, Clone, Debug, PartialEq, Eq, Structural)]
pub enum PeriphAndMemSize {
    Eight,
    Sixteen,
    ThirtyTwo,
    Reserved,
}

/// The arbitration priority of a channel.
#[derive(Copy, Clone, Debug, PartialEq, Eq, Structural)]
pub enum ChannelPriorityLevel {
    Low,
    Medium,
    High,
    VeryHigh,
}

/// The bits a direction encodes to.
pub open spec fn spec_dir_mask(d: DataDirection) -> u32 {
    match d {
        DataDirection::FromPeriph => 0,
        DataDirection::FromMem => CCR_DIR,
    }
}

/// The bits a peripheral-side size encodes to.
pub open spec fn spec_psize_mask(s: PeriphAndMemSize) -> u32 {
    match s {
        PeriphAndMemSize::Eight => 0,
        PeriphAndMemSize::Sixteen => CCR_PSIZE0,
        PeriphAndMemSize::ThirtyTwo => CCR_PSIZE1,
        PeriphAndMemSize::Reserved => CCR_PSIZE0 | CCR_PSIZE1,
    }
}

/// The bits a memory-side size encodes to.
pub open spec fn spec_msize_mask(s: PeriphAndMemSize) -> u32 {
    match s {
        PeriphAndMemSize::Eight => 0,
        PeriphAndMemSize::Sixteen => CCR_MSIZE0,
        PeriphAndMemSize::ThirtyTwo => CCR_MSIZE1,
        PeriphAndMemSize::Reserved => CCR_MSIZE0 | CCR_MSIZE1,
    }
}

/// The bits a priority encodes to.
pub open spec fn spec_priority_mask(p: ChannelPriorityLevel) -> u32 {
    match p {
        ChannelPriorityLevel::Low => 0,
        ChannelPriorityLevel::Medium => CCR_PL0,
        ChannelPriorityLevel::High => CCR_PL1,
        ChannelPriorityLevel::VeryHigh => CCR_PL0 | CCR_PL1,
    }
}

/// DMA channel configuration register.
#[derive(Copy, Clone, Debug)]
pub struct CCR(pub u32);

impl CCR {
    /// Channel enable.
    pub fn enable_dma(&mut self, enable: bool)
        ensures
            enable ==> final(self).0 == (old(self).0 & !CCR_EN) | CCR_EN,
            !enable ==> final(self).0 == old(self).0 & !CCR_EN,
    {
        self.0 &= !CCR_EN;
        if enable {
            self.0 |= CCR_EN;
        }
    }

    /// Transfer-complete interrupt enable.
    pub fn enable_transmit_complete_interrupt(&mut self, enable: bool)
        ensures
            enable ==> final(self).0 == (old(self).0 & !CCR_TCIE) | CCR_TCIE,
            !enable ==> final(self).0 == old(self).0 & !CCR_TCIE,
    {
        self.0 &= !CCR_TCIE;
        if enable {
            self.0 |= CCR_TCIE;
        }
    }

    /// Half-transfer interrupt enable.
    pub fn enable_half_transfer_interrupt(&mut self, enable: bool)
        ensures
            enable ==> final(self).0 == (old(self).0 & !CCR_HTIE) | CCR_HTIE,
            !enable ==> final(self).0 == old(self).0 & !CCR_HTIE,
    {
        self.0 &= !CCR_HTIE;
        if enable {
            self.0 |= CCR_HTIE;
        }
    }

    /// Transfer-error interrupt enable.
    pub fn enable_transfer_error_interrupt(&mut self, enable: bool)
        ensures
            enable ==> final(self).0 == (old(self).0 & !CCR_TEIE) | CCR_TEIE,
            !enable ==> final(self).0 == old(self).0 & !CCR_TEIE,
    {
        self.0 &= !CCR_TEIE;
        if enable {
            self.0 |= CCR_TEIE;
        }
    }

    /// Data transfer direction.
    pub fn set_data_transfer_direction(&mut self, data_dir: DataDirection)
        ensures
            final(self).0 == (old(self).0 & !CCR_DIR) | spec_dir_mask(data_dir),
    {
        let mask = match data_dir {
            DataDirection::FromPeriph => 0,
            DataDirection::FromMem => CCR_DIR,
        };

        self.0 &= !CCR_DIR;
        self.0 |= mask;
    }

    /// Circular mode.
    pub fn enable_circular_mode(&mut self, enable: bool)
        ensures
            enable ==> final(self).0 == (old(self).0 & !CCR_CIRC) | CCR_CIRC,
            !enable ==> final(self).0 == old(self).0 & !CCR_CIRC,
    {
        self.0 &= !CCR_CIRC;
        if enable {
            self.0 |= CCR_CIRC;
        }
    }

    /// Peripheral increment mode.
    pub fn enable_peripheral_increment_mode(&mut self, enable: bool)
        ensures
            enable ==> final(self).0 == (old(self).0 & !CCR_PINC) | CCR_PINC,
            !enable ==> final(self).0 == old(self).0 & !CCR_PINC,
    {
        self.0 &= !CCR_PINC;
        if enable {
            self.0 |= CCR_PINC;
        }
    }

    /// Memory increment mode.
    pub fn enable_memory_increment_mode(&mut self, enable: bool)
        ensures
            enable ==> final(self).0 == (old(self).0 & !CCR_MINC) | CCR_MINC,
            !enable ==> final(self).0 == old(self).0 & !CCR_MINC,
    {
        self.0 &= !CCR_MINC;
        if enable {
            self.0 |= CCR_MINC;
        }
    }

    /// Peripheral size.
    pub fn set_peripheral_size(&mut self, periph_size: PeriphAndMemSize)
        ensures
            final(self).0 == (old(self).0 & !(CCR_PSIZE0 | CCR_PSIZE1)) | spec_psize_mask(
                periph_size,
            ),
    {
        let mask = match periph_size {
            PeriphAndMemSize::Eight => 0,
            PeriphAndMemSize::Sixteen => CCR_PSIZE0,
            PeriphAndMemSize::ThirtyTwo => CCR_PSIZE1,
            PeriphAndMemSize::Reserved => CCR_PSIZE0 | CCR_PSIZE1,
        };

        self.0 &= !(CCR_PSIZE0 | CCR_PSIZE1);
        self.0 |= mask;
    }

    /// Memory size.
    pub fn set_memory_size(&mut self, mem_size: PeriphAndMemSize)
        ensures
            final(self).0 == (old(self).0 & !(CCR_MSIZE0 | CCR_MSIZE1)) | spec_msize_mask(
                mem_size,
            ),
    {
        let mask = match mem_size {
            PeriphAndMemSize::Eight => 0,
            PeriphAndMemSize::Sixteen => CCR_MSIZE0,
            PeriphAndMemSize::ThirtyTwo => CCR_MSIZE1,
            PeriphAndMemSize::Reserved => CCR_MSIZE0 | CCR_MSIZE1,
        };

        self.0 &= !(CCR_MSIZE0 | CCR_MSIZE1);
        self.0 |= mask;
    }

    /// Channel priority level.  If two channels share a priority, the
    /// lower-numbered channel wins.
    pub fn set_channel_priority(&mut self, chan_priority: ChannelPriorityLevel)
        ensures
            final(self).0 == (old(self).0 & !(CCR_PL0 | CCR_PL1)) | spec_priority_mask(
                chan_priority,
            ),
    {
        let mask = match chan_priority {
            ChannelPriorityLevel::Low => 0,
            ChannelPriorityLevel::Medium => CCR_PL0,
            ChannelPriorityLevel::High => CCR_PL1,
            ChannelPriorityLevel::VeryHigh => CCR_PL0 | CCR_PL1,
        };

        self.0 &= !(CCR_PL0 | CCR_PL1);
        self.0 |= mask;
    }

    /// Memory-to-memory mode.
    pub fn enable_mem2mem_mode(&mut self, enable: bool)
        ensures
            enable ==> final(self).0 == (old(self).0 & !CCR_MEM2MEM) | CCR_MEM2MEM,
            !enable ==> final(self).0 == old(self).0 & !CCR_MEM2MEM,
    {
        self.0 &= !CCR_MEM2MEM;
        if enable {
            self.0 |= CCR_MEM2MEM;
        }
    }
}

} // verus!
