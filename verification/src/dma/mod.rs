//! The direct memory access controller: one DMA peripheral with channels
//! 1 to 5, each with its own configuration, count and address registers,
//! plus the shared interrupt flag registers.

use vstd::prelude::*;

pub mod defs;
pub mod ccr;
pub mod cndtr;
pub mod cpar;
pub mod cmar;
pub mod ifcr;

pub use self::ccr::{CCR, DataDirection, PeriphAndMemSize, ChannelPriorityLevel};
pub use self::cndtr::CNDTR;
pub use self::cpar::CPAR;
pub use self::cmar::CMAR;
pub use self::ifcr::IFCR;

use crate::dma::defs::{
    CCR_EN, CCR_TCIE, CCR_DIR, CCR_CIRC, CCR_PINC, CCR_MINC, CCR_PSIZE0, CCR_PSIZE1, CCR_MSIZE0,
    CCR_MSIZE1, CCR_PL0, CCR_PL1, CCR_MEM2MEM, DMA_CTCIF_1,
};
use crate::rcc::RawRCC;
use crate::rcc::Peripheral;
use crate::interrupt::{RawNvic, Hardware};

verus! {

/// Defines the wake/sleep channel for the USART TX on channel 4.
pub const DMA_TX_CHAN4PLUS: usize = 26;

/// The available DMA channels.
#[derive(Copy, Clone, Debug, PartialEq, Eq, Structural)]
pub enum DMAChannel {
    /// DMA channel 1 (index 0)
    One,
    /// DMA channel 2 (index 1)
    Two,
    /// DMA channel 3 (index 2)
    Three,
    /// DMA channel 4 (index 3)
    Four,
    /// DMA channel 5 (index 4)
    Five,
}

impl DMAChannel {
    /// The channel's index into the register block's channel array.
    pub open spec fn spec_index(&self) -> u32 {
        match *self {
            DMAChannel::One => 0,
            DMAChannel::Two => 1,
            DMAChannel::Three => 2,
            DMAChannel::Four => 3,
            DMAChannel::Five => 4,
        }
    }

    /// The channel's index into the register block's channel array.
    pub fn index(&self) -> (r: u32)
        ensures
            r == self.spec_index(),
            r < 5,
    {
        match *self {
            DMAChannel::One => 0,
            DMAChannel::Two => 1,
            DMAChannel::Three => 2,
            DMAChannel::Four => 3,
            DMAChannel::Five => 4,
        }
    }
}

/// The register block of one DMA channel.
#[derive(Copy, Clone, Debug)]
pub struct DMAChannelRegs {
    pub ccr: CCR,
    pub cndtr: CNDTR,
    pub cpar: CPAR,
    pub cmar: CMAR,
}

impl DMAChannelRegs {
    /// A channel in its reset state.
    pub fn new() -> (r: DMAChannelRegs)
        ensures
            r == (DMAChannelRegs { ccr: CCR(0), cndtr: CNDTR(0), cpar: CPAR(0), cmar: CMAR(0) }),
    {
        DMAChannelRegs { ccr: CCR(0), cndtr: CNDTR(0), cpar: CPAR(0), cmar: CMAR(0) }
    }

    /// Enable the channel.
    pub fn enable_dma(&mut self)
        ensures
            *final(self) == (DMAChannelRegs {
                ccr: CCR((old(self).ccr.0 & !CCR_EN) | CCR_EN),
                ..*old(self)
            }),
    {
        self.ccr.enable_dma(true);
    }

    /// Disable the channel.
    pub fn disable_dma(&mut self)
        ensures
            *final(self) == (DMAChannelRegs { ccr: CCR(old(self).ccr.0 & !CCR_EN), ..*old(self) }),
    {
        self.ccr.enable_dma(false);
    }

    /// Enable the TC interrupt, raised at the end of the transfer.
    pub fn enable_transmit_complete_interrupt(&mut self)
        ensures
            *final(self) == (DMAChannelRegs {
                ccr: CCR((old(self).ccr.0 & !CCR_TCIE) | CCR_TCIE),
                ..*old(self)
            }),
    {
        self.ccr.enable_transmit_complete_interrupt(true);
    }

    /// Disable the TC interrupt.
    pub fn disable_transmit_complete_interrupt(&mut self)
        ensures
            *final(self) == (DMAChannelRegs {
                ccr: CCR(old(self).ccr.0 & !CCR_TCIE),
                ..*old(self)
            }),
    {
        self.ccr.enable_transmit_complete_interrupt(false);
    }

    /// Enable the HT interrupt, raised when half the bytes have moved.
    pub fn enable_half_transfer_interrupt(&mut self)
        ensures
            *final(self) == (DMAChannelRegs {
                ccr: CCR((old(self).ccr.0 & !crate::dma::defs::CCR_HTIE)
                    | crate::dma::defs::CCR_HTIE),
                ..*old(self)
            }),
    {
        self.ccr.enable_half_transfer_interrupt(true);
    }

    /// Disable the HT interrupt.
    pub fn disable_half_transfer_interrupt(&mut self)
        ensures
            *final(self) == (DMAChannelRegs {
                ccr: CCR(old(self).ccr.0 & !crate::dma::defs::CCR_HTIE),
                ..*old(self)
            }),
    {
        self.ccr.enable_half_transfer_interrupt(false);
    }

    /// Enable the TE interrupt, raised when a transfer faults; the faulty
    /// channel is then disabled by hardware.
    pub fn enable_transfer_error_interrupt(&mut self)
        ensures
            *final(self) == (DMAChannelRegs {
                ccr: CCR((old(self).ccr.0 & !crate::dma::defs::CCR_TEIE)
                    | crate::dma::defs::CCR_TEIE),
                ..*old(self)
            }),
    {
        self.ccr.enable_transfer_error_interrupt(true);
    }

    /// Disable the TE interrupt.
    pub fn disable_transfer_error_interrupt(&mut self)
        ensures
            *final(self) == (DMAChannelRegs {
                ccr: CCR(old(self).ccr.0 & !crate::dma::defs::CCR_TEIE),
                ..*old(self)
            }),
    {
        self.ccr.enable_transfer_error_interrupt(false);
    }

    /// Set the transfer direction: read from memory or from the
    /// peripheral.
    pub fn set_data_transfer_direction(&mut self, data_dir: DataDirection)
        ensures
            *final(self) == (DMAChannelRegs {
                ccr: CCR((old(self).ccr.0 & !CCR_DIR) | crate::dma::ccr::spec_dir_mask(data_dir)),
                ..*old(self)
            }),
    {
        self.ccr.set_data_transfer_direction(data_dir);
    }

    /// Enable circular mode: the transfer count reloads automatically and
    /// requests keep being served.
    pub fn enable_circular_mode(&mut self)
        ensures
            *final(self) == (DMAChannelRegs {
                ccr: CCR((old(self).ccr.0 & !CCR_CIRC) | CCR_CIRC),
                ..*old(self)
            }),
    {
        self.ccr.enable_circular_mode(true);
    }

    /// Disable circular mode.
    pub fn disable_circular_mode(&mut self)
        ensures
            *final(self) == (DMAChannelRegs {
                ccr: CCR(old(self).ccr.0 & !CCR_CIRC),
                ..*old(self)
            }),
    {
        self.ccr.enable_circular_mode(false);
    }

    /// Enable peripheral increment mode: the peripheral pointer advances
    /// after each transaction.
    pub fn enable_peripheral_increment_mode(&mut self)
        ensures
            *final(self) == (DMAChannelRegs {
                ccr: CCR((old(self).ccr.0 & !CCR_PINC) | CCR_PINC),
                ..*old(self)
            }),
    {
        self.ccr.enable_peripheral_increment_mode(true);
    }

    /// Disable peripheral increment mode.
    pub fn disable_peripheral_increment_mode(&mut self)
        ensures
            *final(self) == (DMAChannelRegs {
                ccr: CCR(old(self).ccr.0 & !CCR_PINC),
                ..*old(self)
            }),
    {
        self.ccr.enable_peripheral_increment_mode(false);
    }

    /// Enable memory increment mode: the memory pointer advances after
    /// each transaction.
    pub fn enable_memory_increment_mode(&mut self)
        ensures
            *final(self) == (DMAChannelRegs {
                ccr: CCR((old(self).ccr.0 & !CCR_MINC) | CCR_MINC),
                ..*old(self)
            }),
    {
        self.ccr.enable_memory_increment_mode(true);
    }

    /// Disable memory increment mode.
    pub fn disable_memory_increment_mode(&mut self)
        ensures
            *final(self) == (DMAChannelRegs {
                ccr: CCR(old(self).ccr.0 & !CCR_MINC),
                ..*old(self)
            }),
    {
        self.ccr.enable_memory_increment_mode(false);
    }

    /// Set the peripheral-side element size.
    pub fn set_peripheral_size(&mut self, periph_size: PeriphAndMemSize)
        ensures
            *final(self) == (DMAChannelRegs {
                ccr: CCR(
                    (old(self).ccr.0 & !(CCR_PSIZE0 | CCR_PSIZE1))
                        | crate::dma::ccr::spec_psize_mask(periph_size),
                ),
                ..*old(self)
            }),
    {
        self.ccr.set_peripheral_size(periph_size);
    }

    /// Set the memory-side element size.
    pub fn set_memory_size(&mut self, mem_size: PeriphAndMemSize)
        ensures
            *final(self) == (DMAChannelRegs {
                ccr: CCR(
                    (old(self).ccr.0 & !(CCR_MSIZE0 | CCR_MSIZE1))
                        | crate::dma::ccr::spec_msize_mask(mem_size),
                ),
                ..*old(self)
            }),
    {
        self.ccr.set_memory_size(mem_size);
    }

    /// Set the channel priority; among equal priorities the lower-numbered
    /// channel wins.
    pub fn set_channel_priority(&mut self, chan_priority: ChannelPriorityLevel)
        ensures
            *final(self) == (DMAChannelRegs {
                ccr: CCR(
                    (old(self).ccr.0 & !(CCR_PL0 | CCR_PL1))
                        | crate::dma::ccr::spec_priority_mask(chan_priority),
                ),
                ..*old(self)
            }),
    {
        self.ccr.set_channel_priority(chan_priority);
    }

    /// Enable memory-to-memory transfers, which run without peripheral
    /// requests until the count reaches zero; this cannot be combined with
    /// circular mode.
    pub fn enable_mem2mem_mode(&mut self)
        ensures
            *final(self) == (DMAChannelRegs {
                ccr: CCR((old(self).ccr.0 & !CCR_MEM2MEM) | CCR_MEM2MEM),
                ..*old(self)
            }),
    {
        self.ccr.enable_mem2mem_mode(true);
    }

    /// Disable memory-to-memory transfers.
    pub fn disable_mem2mem_mode(&mut self)
        ensures
            *final(self) == (DMAChannelRegs {
                ccr: CCR(old(self).ccr.0 & !CCR_MEM2MEM),
                ..*old(self)
            }),
    {
        self.ccr.enable_mem2mem_mode(false);
    }

    /// Set the number of data items to transfer, up to 65535.
    pub fn set_number_of_data(&mut self, num_data: u16)
        ensures
            *final(self) == (DMAChannelRegs { cndtr: CNDTR(num_data as u32), ..*old(self) }),
    {
        self.cndtr.set_ndt(num_data);
    }

    /// Set the peripheral address data moves from or to.
    pub fn set_peripheral_address(&mut self, periph_addr: u32)
        ensures
            *final(self) == (DMAChannelRegs { cpar: CPAR(periph_addr), ..*old(self) }),
    {
        self.cpar.set_pa(periph_addr);
    }

    /// Set the memory address data moves from or to.
    pub fn set_memory_address(&mut self, mem_addr: u32)
        ensures
            *final(self) == (DMAChannelRegs { cmar: CMAR(mem_addr), ..*old(self) }),
    {
        self.cmar.set_ma(mem_addr);
    }
}

/// The DMA peripheral's register block: the interrupt status and clear
/// registers and the five channels.
pub struct RawDMA {
    pub isr: u32,
    pub ifcr: IFCR,
    pub channel: Vec<DMAChannelRegs>,
}

impl RawDMA {
    /// Five channels.
    pub open spec fn wf(&self) -> bool {
        self.channel@.len() == 5
    }

    /// The peripheral in its reset state.
    pub fn new() -> (r: RawDMA)
        ensures
            r.wf(),
            r.isr == 0,
            r.ifcr.0 == 0,
            forall|i: int|
                0 <= i < 5 ==> #[trigger] r.channel@[i] == (DMAChannelRegs {
                    ccr: CCR(0),
                    cndtr: CNDTR(0),
                    cpar: CPAR(0),
                    cmar: CMAR(0),
                }),
    {
        let blank = DMAChannelRegs::new();
        let channel: Vec<DMAChannelRegs> = vec![blank; 5];
        RawDMA { isr: 0, ifcr: IFCR(0), channel }
    }

    /// The register block of one channel.
    pub fn get_channel(&self, chan: DMAChannel) -> (r: DMAChannelRegs)
        requires
            self.wf(),
        ensures
            r == self.channel@[chan.spec_index() as int],
    {
        self.channel[chan.index() as usize]
    }

    /// Replace the register block of one channel.
    pub fn set_channel(&mut self, chan: DMAChannel, regs: DMAChannelRegs)
        requires
            old(self).wf(),
        ensures
            final(self).wf(),
            final(self).channel@ == old(self).channel@.update(chan.spec_index() as int, regs),
            final(self).isr == old(self).isr,
            final(self).ifcr == old(self).ifcr,
    {
        let idx = chan.index() as usize;
        self.channel[idx] = regs;
    }

    /// Request all of the channel's interrupt flags be cleared.
    pub fn channel_global_interrupt_clear(&mut self, chan: DMAChannel)
        ensures
            final(self).ifcr.0 == old(self).ifcr.0 | (crate::dma::defs::DMA_CGIF_1 << ((4
                * chan.spec_index()) as u32)),
            final(self).isr == old(self).isr,
            final(self).channel@ == old(self).channel@,
    {
        self.ifcr.channel_global_interrupt_clear(chan);
    }

    /// Request the channel's transfer-complete flag be cleared.
    pub fn channel_transfer_complete_clear(&mut self, chan: DMAChannel)
        ensures
            final(self).ifcr.0 == old(self).ifcr.0 | (DMA_CTCIF_1 << ((4
                * chan.spec_index()) as u32)),
            final(self).isr == old(self).isr,
            final(self).channel@ == old(self).channel@,
    {
        self.ifcr.channel_transfer_complete_clear(chan);
    }

    /// Request the channel's half-transfer flag be cleared.
    pub fn channel_half_transfer_clear(&mut self, chan: DMAChannel)
        ensures
            final(self).ifcr.0 == old(self).ifcr.0 | (crate::dma::defs::DMA_CHTIF_1 << ((4
                * chan.spec_index()) as u32)),
            final(self).isr == old(self).isr,
            final(self).channel@ == old(self).channel@,
    {
        self.ifcr.channel_half_transfer_clear(chan);
    }

    /// Request the channel's transfer-error flag be cleared.
    pub fn channel_transfer_error_clear(&mut self, chan: DMAChannel)
        ensures
            final(self).ifcr.0 == old(self).ifcr.0 | (crate::dma::defs::DMA_CTEIF_1 << ((4
                * chan.spec_index()) as u32)),
            final(self).isr == old(self).isr,
            final(self).channel@ == old(self).channel@,
    {
        self.ifcr.channel_transfer_error_clear(chan);
    }
}

/// The channel configuration a USART transmit transfer uses: medium
/// priority, byte-sized elements on both sides, reading from memory with
/// the memory pointer advancing, one-shot, with the transfer-complete
/// interrupt unmasked and the channel enabled.
pub open spec fn spec_usart_tx_ccr(c: u32) -> u32 {
    let c1 = c & !CCR_EN;
    let c2 = (c1 & !(CCR_PL0 | CCR_PL1)) | CCR_PL0;
    let c3 = (c2 & !(CCR_MSIZE0 | CCR_MSIZE1)) | 0;
    let c4 = (c3 & !(CCR_PSIZE0 | CCR_PSIZE1)) | 0;
    let c5 = (c4 & !CCR_DIR) | CCR_DIR;
    let c6 = (c5 & !CCR_MINC) | CCR_MINC;
    let c7 = c6 & !CCR_PINC;
    let c8 = c7 & !CCR_CIRC;
    let c9 = c8 & !CCR_MEM2MEM;
    let c10 = (c9 & !CCR_TCIE) | CCR_TCIE;
    (c10 & !CCR_EN) | CCR_EN
}

/// Prepare the DMA for the peripheral it will serve: enable its clock and
/// route its interrupt line.
pub fn init(rcc: &mut RawRCC, nvic: &mut RawNvic)
    requires
        old(nvic).wf(),
    ensures
        final(nvic).wf(),
        final(rcc).ahbenr.0 == (old(rcc).ahbenr.0 & !crate::rcc::defs::DMAEN)
            | crate::rcc::defs::DMAEN,
        final(nvic).iser.0 == old(nvic).iser.0 | (1u32 << 11),
{
    rcc.enable_peripheral(Peripheral::DMA);
    nvic.enable_interrupt(Hardware::Dmach4Plus);
}

/// Configure a channel for USART transmit: point it at the transmit data
/// register and the outgoing bytes, then arm it.
pub fn set_dma_usart_tx(
    dma: &mut RawDMA,
    chan: DMAChannel,
    peripheral_addr: u32,
    memory_addr: u32,
    num_data: u16,
)
    requires
        old(dma).wf(),
    ensures
        final(dma).wf(),
        final(dma).channel@ == old(dma).channel@.update(chan.spec_index() as int, DMAChannelRegs {
            ccr: CCR(spec_usart_tx_ccr(old(dma).channel@[chan.spec_index() as int].ccr.0)),
            cndtr: CNDTR(num_data as u32),
            cpar: CPAR(peripheral_addr),
            cmar: CMAR(memory_addr),
        }),
        final(dma).isr == old(dma).isr,
        final(dma).ifcr == old(dma).ifcr,
{
    let mut regs = dma.get_channel(chan);

    regs.disable_dma();
    regs.set_peripheral_address(peripheral_addr);
    regs.set_memory_address(memory_addr);

    regs.set_channel_priority(ChannelPriorityLevel::Medium);
    regs.set_memory_size(PeriphAndMemSize::Eight);
    regs.set_peripheral_size(PeriphAndMemSize::Eight);
    regs.set_data_transfer_direction(DataDirection::FromMem);
    regs.enable_memory_increment_mode();
    regs.set_number_of_data(num_data);
    regs.disable_peripheral_increment_mode();
    regs.disable_circular_mode();
    regs.disable_mem2mem_mode();
    regs.enable_transmit_complete_interrupt();
    regs.enable_dma();

    dma.set_channel(chan, regs);
}

} // verus!
