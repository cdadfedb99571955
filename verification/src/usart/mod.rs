//! The USART serial peripheral: configuration of direction, framing,
//! interrupts, DMA handoff and baud rate, and the byte-level transmit and
//! receive handshakes.

use vstd::prelude::*;

pub mod defs;
pub mod control;
pub mod baudr;
pub mod tdr;
pub mod rdr;
pub mod isr;
pub mod icr;

pub use self::control::{WordLength, Mode, Parity, StopLength, HardwareFlowControl, DMAMode, CR1,
    CR2, CR3};
pub use self::baudr::{BaudRate, BRR};
pub use self::tdr::TDR;
pub use self::rdr::RDR;
pub use self::isr::ISR;
pub use self::icr::ICR;

use crate::usart::defs::{
    CR1_UE, CR1_RXNEIE, CR1_TCIE, CR1_TXEIE, CR1_OVER8, CR1_MODE_MASK, CR1_PARITY_MASK,
    CR1_WORD_MASK, CR2_STOP_MASK, CR3_DMA_MASK, CR3_HFC_MASK, ISR_RXNE, ISR_TC, ISR_TXE,
    ICR_ORECF, ICR_IDLECF, ICR_TCCF,
};
use crate::usart::control::{spec_mode_mask, spec_parity_mask, spec_word_length_mask,
    spec_stop_mask, spec_hfc_mask, spec_dma_mode_mask};
use crate::usart::baudr::spec_brr_value;

verus! {

/// Defines the wake/sleep channel for the TX buffer when full.
pub const USART2_TX_CHAN: usize = 43;

/// Defines the wake/sleep channel for bytes arriving in the receive
/// buffer.
pub const USART2_RX_CHAN: usize = 129;

/// The two USART instances of the device.
#[derive(Copy, Clone, Debug, PartialEq, Eq, Structural)]
pub enum UsartX {
    /// Connected to PA9 (TX) and PA10 (RX).
    Usart1,
    /// The debug serial, connected to PA2 (TX) and PA15 (RX).
    Usart2,
}

/// The USART register block.
#[derive(Copy, Clone, Debug)]
pub struct RawUsart {
    pub cr1: CR1,
    pub cr2: CR2,
    pub cr3: CR3,
    pub brr: BRR,
    pub gtpr: u32,
    pub rtor: u32,
    pub rqr: u32,
    pub isr: ISR,
    pub icr: ICR,
    pub rdr: RDR,
    pub tdr: TDR,
}

impl RawUsart {
    /// The peripheral in its reset state.
    pub fn new() -> (r: RawUsart)
        ensures
            r == (RawUsart {
                cr1: CR1(0),
                cr2: CR2(0),
                cr3: CR3(0),
                brr: BRR(0),
                gtpr: 0u32,
                rtor: 0u32,
                rqr: 0u32,
                isr: ISR(0),
                icr: ICR(0),
                rdr: RDR(0),
                tdr: TDR(0),
            }),
    {
        RawUsart {
            cr1: CR1(0),
            cr2: CR2(0),
            cr3: CR3(0),
            brr: BRR(0),
            gtpr: 0,
            rtor: 0,
            rqr: 0,
            isr: ISR(0),
            icr: ICR(0),
            rdr: RDR(0),
            tdr: TDR(0),
        }
    }

    /// Enable the USART.
    pub fn enable_usart(&mut self)
        ensures
            *final(self) == (RawUsart { cr1: CR1(old(self).cr1.0 | CR1_UE), ..*old(self) }),
    {
        self.cr1.enable_usart(true);
    }

    /// Disable the USART.
    pub fn disable_usart(&mut self)
        ensures
            *final(self) == (RawUsart { cr1: CR1(old(self).cr1.0 & !CR1_UE), ..*old(self) }),
    {
        self.cr1.enable_usart(false);
    }

    /// Whether the USART is enabled.
    pub fn is_usart_enabled(&self) -> (r: bool)
        ensures
            r == (self.cr1.0 & CR1_UE != 0),
    {
        self.cr1.is_usart_enabled()
    }

    /// Select the directions the USART serves.
    pub fn set_mode(&mut self, mode: Mode)
        ensures
            *final(self) == (RawUsart {
                cr1: CR1((old(self).cr1.0 & !CR1_MODE_MASK) | spec_mode_mask(mode)),
                ..*old(self)
            }),
    {
        self.cr1.set_mode(mode);
    }

    /// Enable the RXNE interrupt, raised when the receive data register
    /// holds a byte.
    pub fn enable_receiver_not_empty_interrupt(&mut self)
        ensures
            *final(self) == (RawUsart { cr1: CR1(old(self).cr1.0 | CR1_RXNEIE), ..*old(self) }),
    {
        self.cr1.set_receiver_not_empty_interrupt(true);
    }

    /// Disable the RXNE interrupt.
    pub fn disable_receiver_not_empty_interrupt(&mut self)
        ensures
            *final(self) == (RawUsart { cr1: CR1(old(self).cr1.0 & !CR1_RXNEIE), ..*old(self) }),
    {
        self.cr1.set_receiver_not_empty_interrupt(false);
    }

    /// Enable the TC interrupt, raised when a transmission completes.
    pub fn enable_transmit_complete_interrupt(&mut self)
        ensures
            *final(self) == (RawUsart { cr1: CR1(old(self).cr1.0 | CR1_TCIE), ..*old(self) }),
    {
        self.cr1.set_transmit_complete_interrupt(true);
    }

    /// Disable the TC interrupt.
    pub fn disable_transmit_complete_interrupt(&mut self)
        ensures
            *final(self) == (RawUsart { cr1: CR1(old(self).cr1.0 & !CR1_TCIE), ..*old(self) }),
    {
        self.cr1.set_transmit_complete_interrupt(false);
    }

    /// Enable the TXE interrupt, raised when the transmit data register is
    /// ready for more.
    pub fn enable_transmit_interrupt(&mut self)
        ensures
            *final(self) == (RawUsart { cr1: CR1(old(self).cr1.0 | CR1_TXEIE), ..*old(self) }),
    {
        self.cr1.set_transmit_interrupt(true);
    }

    /// Disable the TXE interrupt.
    pub fn disable_transmit_interrupt(&mut self)
        ensures
            *final(self) == (RawUsart { cr1: CR1(old(self).cr1.0 & !CR1_TXEIE), ..*old(self) }),
    {
        self.cr1.set_transmit_interrupt(false);
    }

    /// Select the parity check appended to each word.
    pub fn set_parity(&mut self, parity: Parity)
        ensures
            *final(self) == (RawUsart {
                cr1: CR1((old(self).cr1.0 & !CR1_PARITY_MASK) | spec_parity_mask(parity)),
                ..*old(self)
            }),
    {
        self.cr1.set_parity(parity);
    }

    /// Select the length of each data word.
    pub fn set_word_length(&mut self, length: WordLength)
        ensures
            *final(self) == (RawUsart {
                cr1: CR1((old(self).cr1.0 & !CR1_WORD_MASK) | spec_word_length_mask(length)),
                ..*old(self)
            }),
    {
        self.cr1.set_word_length(length);
    }

    /// Select oversampling by eight.
    pub fn enable_over8(&mut self)
        ensures
            *final(self) == (RawUsart { cr1: CR1(old(self).cr1.0 | CR1_OVER8), ..*old(self) }),
    {
        self.cr1.set_over8(true);
    }

    /// Fall back to oversampling by sixteen.
    pub fn disable_over8(&mut self)
        ensures
            *final(self) == (RawUsart { cr1: CR1(old(self).cr1.0 & !CR1_OVER8), ..*old(self) }),
    {
        self.cr1.set_over8(false);
    }

    /// Select the number of stop bits.
    pub fn set_stop_bits(&mut self, length: StopLength)
        ensures
            *final(self) == (RawUsart {
                cr2: CR2((old(self).cr2.0 & !CR2_STOP_MASK) | spec_stop_mask(length)),
                ..*old(self)
            }),
    {
        self.cr2.set_stop_bits(length);
    }

    /// Select which directions drive the DMA.
    pub fn set_dma_mode(&mut self, dma_mode: DMAMode)
        ensures
            *final(self) == (RawUsart {
                cr3: CR3((old(self).cr3.0 & !CR3_DMA_MASK) | spec_dma_mode_mask(dma_mode)),
                ..*old(self)
            }),
    {
        self.cr3.set_dma_mode(dma_mode);
    }

    /// Select the hardware flow control lines.
    pub fn set_hardware_flow_control(&mut self, hfc: HardwareFlowControl)
        ensures
            *final(self) == (RawUsart {
                cr3: CR3((old(self).cr3.0 & !CR3_HFC_MASK) | spec_hfc_mask(hfc)),
                ..*old(self)
            }),
    {
        self.cr3.set_hardware_flow_control(hfc);
    }

    /// Program the baud rate from the clock rate driving the USART,
    /// honoring the oversampling choice in CR1.
    pub fn set_baud_rate(&mut self, baud_rate: BaudRate, clock_rate: u32)
        ensures
            *final(self) == (RawUsart {
                brr: BRR(
                    spec_brr_value(baud_rate, clock_rate, old(self).cr1.0 & CR1_OVER8 != 0),
                ),
                ..*old(self)
            }),
    {
        let over8 = self.cr1.get_over8();
        self.brr.set_baud_rate(baud_rate, clock_rate, over8);
    }

    /// Hand a byte to the transmitter.
    pub fn transmit_byte(&mut self, byte: u8)
        ensures
            *final(self) == (RawUsart { tdr: TDR(byte as u32), ..*old(self) }),
    {
        self.tdr.store(byte);
    }

    /// Take the received byte.
    pub fn load_byte(&self) -> (r: u8)
        ensures
            r == (self.rdr.0 & 0xff) as u8,
    {
        self.rdr.load()
    }

    /// Whether the receive data register holds a byte.
    pub fn is_rx_reg_full(&self) -> (r: bool)
        ensures
            r == (self.isr.0 & ISR_RXNE != 0),
    {
        self.isr.get_rxne()
    }

    /// Whether the transmission of the last series of packets finished.
    pub fn is_transmission_complete(&self) -> (r: bool)
        ensures
            r == (self.isr.0 & ISR_TC != 0),
    {
        self.isr.get_tc()
    }

    /// Whether the transmit data register is ready for another byte.
    pub fn is_tx_reg_empty(&self) -> (r: bool)
        ensures
            r == (self.isr.0 & ISR_TXE != 0),
    {
        self.isr.get_txe()
    }

    /// Request the overrun flag be cleared; it rises when a byte arrives
    /// while the receive data register is still full.
    pub fn clear_ore_flag(&mut self)
        ensures
            *final(self) == (RawUsart { icr: ICR(old(self).icr.0 | ICR_ORECF), ..*old(self) }),
    {
        self.icr.clear_ore();
    }

    /// Request the transmission-complete flag be cleared.
    pub fn clear_tc_flag(&mut self)
        ensures
            *final(self) == (RawUsart { icr: ICR(old(self).icr.0 | ICR_TCCF), ..*old(self) }),
    {
        self.icr.clear_tc();
    }

    /// Request the idle-line flag be cleared.
    pub fn clear_idle_flag(&mut self)
        ensures
            *final(self) == (RawUsart { icr: ICR(old(self).icr.0 | ICR_IDLECF), ..*old(self) }),
    {
        self.icr.clear_idle();
    }
}

} // verus!
