//! ADC interrupt enable register.

use vstd::prelude::*;
use crate::adc::defs::{IER_ADRDYIE, IER_EOSMPIE, IER_EOCIE, IER_EOSEQIE, IER_OVRIE};

verus! {

/// ADC interrupt enable register.
#[derive(Copy, Clone, Debug)]
pub struct IER(pub u32);

impl IER {
    /// Enable or disable the overrun interrupt.
    pub fn set_overrun_interrupt(&mut self, enable: bool)
        ensures
            enable ==> final(self).0 == (old(self).0 & !IER_OVRIE) | IER_OVRIE,
            !enable ==> final(self).0 == old(self).0 & !IER_OVRIE,
    {
        self.0 &= !IER_OVRIE;
        if enable {
            self.0 |= IER_OVRIE;
        }
    }

    /// Enable or disable the end-of-conversion-sequence interrupt.
    pub fn set_end_of_conversion_sequence_interrupt(&mut self, enable: bool)
        ensures
            enable ==> final(self).0 == (old(self).0 & !IER_EOSEQIE) | IER_EOSEQIE,
            !enable ==> final(self).0 == old(self).0 & !IER_EOSEQIE,
    {
        self.0 &= !IER_EOSEQIE;
        if enable {
            self.0 |= IER_EOSEQIE;
        }
    }

    /// Enable or disable the end-of-conversion interrupt.
    pub fn set_end_of_conversion_interrupt(&mut self, enable: bool)
        ensures
            enable ==> final(self).0 == (old(self).0 & !IER_EOCIE) | IER_EOCIE,
            !enable ==> final(self).0 == old(self).0 & !IER_EOCIE,
    {
        self.0 &= !IER_EOCIE;
        if enable {
            self.0 |= IER_EOCIE;
        }
    }

    /// Enable or disable the end-of-sampling interrupt.
    pub fn set_end_of_sampling_interrupt(&mut self, enable: bool)
        ensures
            enable ==> final(self).0 == (old(self).0 & !IER_EOSMPIE) | IER_EOSMPIE,
            !enable ==> final(self).0 == old(self).0 & !IER_EOSMPIE,
    {
        self.0 &= !IER_EOSMPIE;
        if enable {
            self.0 |= IER_EOSMPIE;
        }
    }

    /// Enable or disable the ADC-ready interrupt.
    pub fn set_adc_ready_interrupt(&mut self, enable: bool)
        ensures
            enable ==> final(self).0 == (old(self).0 & !IER_ADRDYIE) | IER_ADRDYIE,
            !enable ==> final(self).0 == old(self).0 & !IER_ADRDYIE,
    {
        self.0 &= !IER_ADRDYIE;
        if enable {
            self.0 |= IER_ADRDYIE;
        }
    }
}

} // verus!
