//! USART baud rate register.

use vstd::prelude::*;
use crate::usart::defs::BRR_DIV_MASK;

verus! {

/// The line rates the driver knows how to program.
#[allow(missing_docs)]
#[derive(Copy, Clone, Debug, PartialEq, Eq, Structural)]
pub enum BaudRate {
    Hz4800,
    Hz9600,
    Hz19200,
    Hz57600,
    Hz115200,
}

/// The divisor a baud rate asks of the clock.
pub open spec fn spec_baud_divisor(b: BaudRate) -> u32 {
    match b {
        BaudRate::Hz4800 => 4_800,
        BaudRate::Hz9600 => 9_600,
        BaudRate::Hz19200 => 19_200,
        BaudRate::Hz57600 => 57_600,
        BaudRate::Hz115200 => 115_200,
    }
}

/// The register value a baud rate programs: the clock divided by the rate;
/// with oversampling by eight, the low field is halved in place.
pub open spec fn spec_brr_value(b: BaudRate, clock_rate: u32, over8: bool) -> u32 {
    let rate = (clock_rate / spec_baud_divisor(b)) as u32;
    if over8 {
        (rate & !BRR_DIV_MASK) | (((rate & BRR_DIV_MASK) >> 1) as u32)
    } else {
        rate
    }
}

/// USART baud rate register.
#[derive(Copy, Clone, Debug)]
pub struct BRR(pub u32);

impl BRR {
    /// Program the divisor for a baud rate from the clock driving the
    /// USART.
    pub fn set_baud_rate(&mut self, baud_rate: BaudRate, clock_rate: u32, over8: bool)
        ensures
            final(self).0 == spec_brr_value(baud_rate, clock_rate, over8),
    {
        let mut rate = match baud_rate {
            BaudRate::Hz4800 => clock_rate / 4_800,
            BaudRate::Hz9600 => clock_rate / 9_600,
            BaudRate::Hz19200 => clock_rate / 19_200,
            BaudRate::Hz57600 => clock_rate / 57_600,
            BaudRate::Hz115200 => clock_rate / 115_200,
        };

        if over8 {
            let mut low_bits = rate & BRR_DIV_MASK;
            low_bits = low_bits >> 1;
            rate &= !BRR_DIV_MASK;
            rate |= low_bits;
        }
        self.0 = rate;
    }
}

} // verus!
