//! GPIO output speed register: one 2-bit speed field per pin.

use vstd::prelude::*;
use crate::field::Field;
use crate::gpio::defs::{SPEED_MASK, SPEED_LOW, SPEED_MEDIUM, SPEED_HIGH};
use crate::gpio::moder::pin_field_shift;

verus! {

/// Defines available GPIO speeds.
///
/// Refer to the device data sheet for the frequency specifications and the
/// power supply and load conditions for each speed.
#[derive(Copy, Clone, Debug, PartialEq, Eq, Structural)]
pub enum Speed {
    Low,
    Medium,
    High,
}

impl Field for Speed {
    open spec fn spec_mask(&self) -> u32 {
        match *self {
            Speed::Low => SPEED_LOW,
            Speed::Medium => SPEED_MEDIUM,
            Speed::High => SPEED_HIGH,
        }
    }

    fn mask(&self) -> (r: u32) {
        match *self {
            Speed::Low => SPEED_LOW,
            Speed::Medium => SPEED_MEDIUM,
            Speed::High => SPEED_HIGH,
        }
    }
}

impl Speed {
    /// The speed a 2-bit field value decodes to; both 0b00 and 0b10 encode
    /// low speed.
    pub open spec fn spec_from_mask(mask: u32) -> Speed {
        if mask == SPEED_MEDIUM {
            Speed::Medium
        } else if mask == SPEED_HIGH {
            Speed::High
        } else {
            Speed::Low
        }
    }

    fn from_mask(mask: u32) -> (r: Speed)
        requires
            mask <= SPEED_HIGH,
        ensures
            r == Speed::spec_from_mask(mask),
    {
        if mask == SPEED_MEDIUM {
            Speed::Medium
        } else if mask == SPEED_HIGH {
            Speed::High
        } else {
            Speed::Low
        }
    }
}

/// GPIO output speed register.
#[derive(Copy, Clone, Debug)]
pub struct OSPEEDR(pub u32);

impl OSPEEDR {
    /// Set the speed for the specified port; the port must be a value in
    /// [0..15].
    pub fn set_speed(&mut self, speed: Speed, port: u8)
        requires
            port <= 15,
        ensures
            final(self).0 == (old(self).0 & !(SPEED_MASK << pin_field_shift(port))) | (
            speed.spec_mask() << pin_field_shift(port)),
    {
        let sh: u32 = (port as u32) * 2;
        let mask = speed.mask();

        self.0 &= !(SPEED_MASK << sh);
        self.0 |= mask << sh;
    }

    /// Get the speed for the specified port; the port must be a value in
    /// [0..15].
    pub fn get_speed(&self, port: u8) -> (r: Speed)
        requires
            port <= 15,
        ensures
            r == Speed::spec_from_mask((self.0 >> pin_field_shift(port)) & SPEED_MASK),
    {
        let sh: u32 = (port as u32) * 2;
        let mask = (self.0 >> sh) & SPEED_MASK;

        proof {
            let v = self.0;
            assert((v >> sh) & SPEED_MASK <= SPEED_HIGH) by (bit_vector);
        }
        Speed::from_mask(mask)
    }
}

} // verus!
