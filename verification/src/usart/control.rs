//! The USART control registers CR1, CR2 and CR3, and the typed fields they
//! hold.

use vstd::prelude::*;
use crate::usart::defs::{
    CR1_UE, CR1_RE, CR1_TE, CR1_RXNEIE, CR1_TCIE, CR1_TXEIE, CR1_PS, CR1_PCE, CR1_M0, CR1_OVER8,
    CR1_M1, CR1_MODE_MASK, CR1_PARITY_MASK, CR1_WORD_MASK, CR2_STOP_MASK, CR2_STOP_ONE,
    CR2_STOP_HALF, CR2_STOP_TWO, CR2_STOP_ONE_AND_HALF, CR3_DMAR, CR3_DMAT, CR3_RTSE, CR3_CTSE,
    CR3_DMA_MASK, CR3_HFC_MASK,
};

verus! {

/// The length of each data word on the wire.
#[derive(Copy, Clone, Debug, PartialEq, Eq, Structural)]
pub enum WordLength {
    Seven,
    Eight,
    Nine,
}

/// Which directions the USART serves.
#[derive(Copy, Clone, Debug, PartialEq, Eq, Structural)]
pub enum Mode {
    Off,
    Receive,
    Transmit,
    All,
}

/// The parity check appended to each word.
#[derive(Copy, Clone, Debug, PartialEq, Eq, Structural)]
pub enum Parity {
    Off,
    Even,
    Odd,
}

/// The number of stop bits ending each word.
#[derive(Copy, Clone, Debug, PartialEq, Eq, Structural)]
pub enum StopLength {
    Half,
    One,
    OneAndHalf,
    Two,
}

/// The hardware flow control lines in use.
#[derive(Copy, Clone, Debug, PartialEq, Eq, Structural)]
pub enum HardwareFlowControl {
    Off,
    Rts,
    Cts,
    All,
}

/// Which directions drive the DMA.
#[derive(Copy, Clone, Debug, PartialEq, Eq, Structural)]
pub enum DMAMode {
    Off,
    Receive,
    Transmit,
    All,
}

pub open spec fn spec_word_length_mask(w: WordLength) -> u32 {
    match w {
        WordLength::Seven => CR1_M1,
        WordLength::Eight => 0,
        WordLength::Nine => CR1_M0,
    }
}

pub open spec fn spec_mode_mask(m: Mode) -> u32 {
    match m {
        Mode::Off => 0,
        Mode::Receive => CR1_RE,
        Mode::Transmit => CR1_TE,
        Mode::All => CR1_RE | CR1_TE,
    }
}

pub open spec fn spec_parity_mask(p: Parity) -> u32 {
    match p {
        Parity::Off => 0,
        Parity::Even => CR1_PCE,
        Parity::Odd => CR1_PCE | CR1_PS,
    }
}

pub open spec fn spec_stop_mask(s: StopLength) -> u32 {
    match s {
        StopLength::Half => CR2_STOP_HALF,
        StopLength::One => CR2_STOP_ONE,
        StopLength::OneAndHalf => CR2_STOP_ONE_AND_HALF,
        StopLength::Two => CR2_STOP_TWO,
    }
}

pub open spec fn spec_hfc_mask(h: HardwareFlowControl) -> u32 {
    match h {
        HardwareFlowControl::Off => 0,
        HardwareFlowControl::Rts => CR3_RTSE,
        HardwareFlowControl::Cts => CR3_CTSE,
        HardwareFlowControl::All => CR3_RTSE | CR3_CTSE,
    }
}

pub open spec fn spec_dma_mode_mask(d: DMAMode) -> u32 {
    match d {
        DMAMode::Off => 0,
        DMAMode::Receive => CR3_DMAR,
        DMAMode::Transmit => CR3_DMAT,
        DMAMode::All => CR3_DMAR | CR3_DMAT,
    }
}

/// USART control register one.
#[derive(Copy, Clone, Debug)]
pub struct CR1(pub u32);

impl CR1 {
    /// Turn the USART on or off.
    pub fn enable_usart(&mut self, enable: bool)
        ensures
            enable ==> final(self).0 == old(self).0 | CR1_UE,
            !enable ==> final(self).0 == old(self).0 & !CR1_UE,
    {
        if enable {
            self.0 |= CR1_UE;
        } else {
            self.0 &= !CR1_UE;
        }
    }

    /// Whether the USART is on.
    pub fn is_usart_enabled(&self) -> (r: bool)
        ensures
            r == (self.0 & CR1_UE != 0),
    {
        self.0 & CR1_UE != 0
    }

    /// Select the directions the USART serves.
    pub fn set_mode(&mut self, mode: Mode)
        ensures
            final(self).0 == (old(self).0 & !CR1_MODE_MASK) | spec_mode_mask(mode),
    {
        let mask = match mode {
            Mode::Off => 0,
            Mode::Receive => CR1_RE,
            Mode::Transmit => CR1_TE,
            Mode::All => CR1_RE | CR1_TE,
        };
        self.0 &= !CR1_MODE_MASK;
        self.0 |= mask;
    }

    /// Enable or disable the receive-register-not-empty interrupt.
    pub fn set_receiver_not_empty_interrupt(&mut self, enable: bool)
        ensures
            enable ==> final(self).0 == old(self).0 | CR1_RXNEIE,
            !enable ==> final(self).0 == old(self).0 & !CR1_RXNEIE,
    {
        if enable {
            self.0 |= CR1_RXNEIE;
        } else {
            self.0 &= !CR1_RXNEIE;
        }
    }

    /// Enable or disable the transmission-complete interrupt.
    pub fn set_transmit_complete_interrupt(&mut self, enable: bool)
        ensures
            enable ==> final(self).0 == old(self).0 | CR1_TCIE,
            !enable ==> final(self).0 == old(self).0 & !CR1_TCIE,
    {
        if enable {
            self.0 |= CR1_TCIE;
        } else {
            self.0 &= !CR1_TCIE;
        }
    }

    /// Enable or disable the transmit-register-empty interrupt.
    pub fn set_transmit_interrupt(&mut self, enable: bool)
        ensures
            enable ==> final(self).0 == old(self).0 | CR1_TXEIE,
            !enable ==> final(self).0 == old(self).0 & !CR1_TXEIE,
    {
        if enable {
            self.0 |= CR1_TXEIE;
        } else {
            self.0 &= !CR1_TXEIE;
        }
    }

    /// Select the parity appended to each word.
    pub fn set_parity(&mut self, parity: Parity)
        ensures
            final(self).0 == (old(self).0 & !CR1_PARITY_MASK) | spec_parity_mask(parity),
    {
        let mask = match parity {
            Parity::Off => 0,
            Parity::Even => CR1_PCE,
            Parity::Odd => CR1_PCE | CR1_PS,
        };
        self.0 &= !CR1_PARITY_MASK;
        self.0 |= mask;
    }

    /// Select the word length on the wire.
    pub fn set_word_length(&mut self, length: WordLength)
        ensures
            final(self).0 == (old(self).0 & !CR1_WORD_MASK) | spec_word_length_mask(length),
    {
        let mask = match length {
            WordLength::Seven => CR1_M1,
            WordLength::Eight => 0,
            WordLength::Nine => CR1_M0,
        };
        self.0 &= !CR1_WORD_MASK;
        self.0 |= mask;
    }

    /// Select oversampling by eight instead of by sixteen.
    pub fn set_over8(&mut self, enable: bool)
        ensures
            enable ==> final(self).0 == old(self).0 | CR1_OVER8,
            !enable ==> final(self).0 == old(self).0 & !CR1_OVER8,
    {
        if enable {
            self.0 |= CR1_OVER8;
        } else {
            self.0 &= !CR1_OVER8;
        }
    }

    /// Whether oversampling by eight is selected.
    pub fn get_over8(&self) -> (r: bool)
        ensures
            r == (self.0 & CR1_OVER8 != 0),
    {
        self.0 & CR1_OVER8 != 0
    }
}

/// USART control register two.
#[derive(Copy, Clone, Debug)]
pub struct CR2(pub u32);

impl CR2 {
    /// Select the number of stop bits.
    pub fn set_stop_bits(&mut self, length: StopLength)
        ensures
            final(self).0 == (old(self).0 & !CR2_STOP_MASK) | spec_stop_mask(length),
    {
        let mask = match length {
            StopLength::Half => CR2_STOP_HALF,
            StopLength::One => CR2_STOP_ONE,
            StopLength::OneAndHalf => CR2_STOP_ONE_AND_HALF,
            StopLength::Two => CR2_STOP_TWO,
        };
        self.0 &= !CR2_STOP_MASK;
        self.0 |= mask;
    }
}

/// USART control register three.
#[derive(Copy, Clone, Debug)]
pub struct CR3(pub u32);

impl CR3 {
    /// Select which directions drive the DMA.
    pub fn set_dma_mode(&mut self, dma_mode: DMAMode)
        ensures
            final(self).0 == (old(self).0 & !CR3_DMA_MASK) | spec_dma_mode_mask(dma_mode),
    {
        let mask = match dma_mode {
            DMAMode::Off => 0,
            DMAMode::Receive => CR3_DMAR,
            DMAMode::Transmit => CR3_DMAT,
            DMAMode::All => CR3_DMAR | CR3_DMAT,
        };
        self.0 &= !CR3_DMA_MASK;
        self.0 |= mask;
    }

    /// Select the hardware flow control lines.
    pub fn set_hardware_flow_control(&mut self, hfc: HardwareFlowControl)
        ensures
            final(self).0 == (old(self).0 & !CR3_HFC_MASK) | spec_hfc_mask(hfc),
    {
        let mask = match hfc {
            HardwareFlowControl::Off => 0,
            HardwareFlowControl::Rts => CR3_RTSE,
            HardwareFlowControl::Cts => CR3_CTSE,
            HardwareFlowControl::All => CR3_RTSE | CR3_CTSE,
        };
        self.0 &= !CR3_HFC_MASK;
        self.0 |= mask;
    }
}

} // verus!
