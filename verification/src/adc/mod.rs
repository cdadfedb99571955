//! The analog-to-digital converter: calibration, ready handshake and
//! conversion start, over its register block.

use vstd::prelude::*;

pub mod defs;
pub mod dr;
pub mod ier;

pub use self::dr::DR;
pub use self::ier::IER;

use crate::adc::defs::{ISR_ADRDY, CR_ADEN, CR_ADDIS, CR_ADSTART, CR_ADCAL, DR_CALFACT_MASK};

verus! {

/// The ADC register block.
#[derive(Copy, Clone, Debug)]
pub struct RawADC {
    pub isr: u32,
    pub ier: IER,
    pub cr: u32,
    pub cfgr1: u32,
    pub cfgr2: u32,
    pub smpr: u32,
    pub tr: u32,
    pub chselr: u32,
    pub dr: DR,
    pub ccr: u32,
}

impl RawADC {
    /// The converter in its reset state.
    pub fn new() -> (r: RawADC)
        ensures
            r == (RawADC {
                isr: 0u32,
                ier: IER(0),
                cr: 0u32,
                cfgr1: 0u32,
                cfgr2: 0u32,
                smpr: 0u32,
                tr: 0u32,
                chselr: 0u32,
                dr: DR(0),
                ccr: 0u32,
            }),
    {
        RawADC {
            isr: 0,
            ier: IER(0),
            cr: 0,
            cfgr1: 0,
            cfgr2: 0,
            smpr: 0,
            tr: 0,
            chselr: 0,
            dr: DR(0),
            ccr: 0,
        }
    }

    /// Run a calibration and hand back the factor the converter measured.
    ///
    /// The hardware clears the calibration bit itself when the run
    /// finishes; in this register model the run completes at once, so the
    /// bit is raised and lowered in one step and the factor is read from
    /// the data register.
    pub fn get_calibration(&mut self) -> (r: u16)
        ensures
            *final(self) == (RawADC {
                cr: (old(self).cr | CR_ADCAL) & !CR_ADCAL,
                ..*old(self)
            }),
            r == (old(self).dr.0 & DR_CALFACT_MASK) as u16,
    {
        self.cr |= CR_ADCAL;
        self.cr &= !CR_ADCAL;
        self.dr.get_calibration_factor()
    }

    /// Whether the converter reports itself ready.
    pub fn adc_ready(&mut self) -> (r: bool)
        ensures
            *final(self) == *old(self),
            r == (old(self).isr & ISR_ADRDY != 0),
    {
        self.isr & ISR_ADRDY != 0
    }

    /// Start a conversion.
    pub fn start_adc_conversion(&mut self)
        ensures
            *final(self) == (RawADC { cr: old(self).cr | CR_ADSTART, ..*old(self) }),
    {
        self.cr |= CR_ADSTART;
    }

    /// Enable the converter.
    pub fn enable_adc(&mut self)
        ensures
            *final(self) == (RawADC { cr: old(self).cr | CR_ADEN, ..*old(self) }),
    {
        self.cr |= CR_ADEN;
    }

    /// Request the converter be disabled.
    pub fn disable_adc(&mut self)
        ensures
            *final(self) == (RawADC { cr: old(self).cr | CR_ADDIS, ..*old(self) }),
    {
        self.cr |= CR_ADDIS;
    }
}

} // verus!
