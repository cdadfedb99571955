//! ADC data register.

use vstd::prelude::*;
use crate::adc::defs::DR_CALFACT_MASK;

verus! {

/// Holds the conversion result of the last converted channel; just after a
/// calibration, its low seven bits hold the calibration factor.
#[derive(Copy, Clone, Debug)]
pub struct DR(pub u32);

impl DR {
    /// The last conversion result.
    pub fn get_converted_data(&self) -> (r: u16)
        ensures
            r == self.0 as u16,
    {
        #[verifier::truncate] (self.0 as u16)
    }

    /// The calibration factor, from the low seven bits.
    pub fn get_calibration_factor(&self) -> (r: u16)
        ensures
            r == (self.0 & DR_CALFACT_MASK) as u16,
    {
        proof {
            let v = self.0;
            assert(v & DR_CALFACT_MASK <= 0x7F) by (bit_vector);
        }
        (self.0 & DR_CALFACT_MASK) as u16
    }
}

} // verus!
