//! GPIO alternate-function registers: one 4-bit function field per pin,
//! split over a low register (pins 0..7) and a high register (pins 8..15).

use vstd::prelude::*;
use crate::field::Field;
use crate::gpio::defs::{AFR_MASK, AF0, AF1, AF2, AF3, AF4, AF5, AF6, AF7};

verus! {

/// Set the functionality of a port.
///
/// See the data sheet for port mappings.
#[derive(Copy, Clone, Debug, PartialEq, Eq, Structural)]
pub enum AlternateFunction {
    Zero,
    One,
    Two,
    Three,
    Four,
    Five,
    Six,
    Seven,
}

impl Field for AlternateFunction {
    open spec fn spec_mask(&self) -> u32 {
        match *self {
            AlternateFunction::Zero => AF0,
            AlternateFunction::One => AF1,
            AlternateFunction::Two => AF2,
            AlternateFunction::Three => AF3,
            AlternateFunction::Four => AF4,
            AlternateFunction::Five => AF5,
            AlternateFunction::Six => AF6,
            AlternateFunction::Seven => AF7,
        }
    }

    fn mask(&self) -> (r: u32) {
        match *self {
            AlternateFunction::Zero => AF0,
            AlternateFunction::One => AF1,
            AlternateFunction::Two => AF2,
            AlternateFunction::Three => AF3,
            AlternateFunction::Four => AF4,
            AlternateFunction::Five => AF5,
            AlternateFunction::Six => AF6,
            AlternateFunction::Seven => AF7,
        }
    }
}

impl AlternateFunction {
    /// The alternate function a field value of at most 7 decodes to.
    pub open spec fn spec_from_mask(mask: u32) -> AlternateFunction {
        if mask == AF0 {
            AlternateFunction::Zero
        } else if mask == AF1 {
            AlternateFunction::One
        } else if mask == AF2 {
            AlternateFunction::Two
        } else if mask == AF3 {
            AlternateFunction::Three
        } else if mask == AF4 {
            AlternateFunction::Four
        } else if mask == AF5 {
            AlternateFunction::Five
        } else if mask == AF6 {
            AlternateFunction::Six
        } else {
            AlternateFunction::Seven
        }
    }

    fn from_mask(mask: u32) -> (r: AlternateFunction)
        requires
            mask <= AF7,
        ensures
            r == AlternateFunction::spec_from_mask(mask),
    {
        if mask == AF0 {
            AlternateFunction::Zero
        } else if mask == AF1 {
            AlternateFunction::One
        } else if mask == AF2 {
            AlternateFunction::Two
        } else if mask == AF3 {
            AlternateFunction::Three
        } else if mask == AF4 {
            AlternateFunction::Four
        } else if mask == AF5 {
            AlternateFunction::Five
        } else if mask == AF6 {
            AlternateFunction::Six
        } else {
            AlternateFunction::Seven
        }
    }
}

/// The shift of a pin's 4-bit field within AFRL (pins 0..7).
pub open spec fn afr_low_shift(port: u8) -> u32 {
    (port * 4) as u32
}

/// The shift of a pin's 4-bit field within AFRH (pins 8..15).
pub open spec fn afr_high_shift(port: u8) -> u32 {
    ((port - 8) * 4) as u32
}

/// Alternate-function low register, for pins 0..7.
#[derive(Copy, Clone, Debug)]
pub struct AFRL(pub u32);

impl AFRL {
    /// Set the alternate function for a pin in [0..7].
    pub fn set_function(&mut self, function: AlternateFunction, port: u8)
        requires
            port <= 7,
        ensures
            final(self).0 == (old(self).0 & !(AFR_MASK << afr_low_shift(port))) | (
            function.spec_mask() << afr_low_shift(port)),
    {
        let sh: u32 = (port as u32) * 4;
        let mask = function.mask();

        self.0 &= !(AFR_MASK << sh);
        self.0 |= mask << sh;
    }

    /// Get the alternate function for a pin in [0..7].
    pub fn get_function(&self, port: u8) -> (r: AlternateFunction)
        requires
            port <= 7,
            (self.0 >> afr_low_shift(port)) & AFR_MASK <= AF7,
        ensures
            r == AlternateFunction::spec_from_mask((self.0 >> afr_low_shift(port)) & AFR_MASK),
    {
        let sh: u32 = (port as u32) * 4;
        let mask = (self.0 >> sh) & AFR_MASK;

        AlternateFunction::from_mask(mask)
    }
}

/// Alternate-function high register, for pins 8..15.
#[derive(Copy, Clone, Debug)]
pub struct AFRH(pub u32);

impl AFRH {
    /// Set the alternate function for a pin in [8..15]; the field sits at
    /// offset `(port - 8) * 4` within the high register.
    pub fn set_function(&mut self, function: AlternateFunction, port: u8)
        requires
            8 <= port <= 15,
        ensures
            final(self).0 == (old(self).0 & !(AFR_MASK << afr_high_shift(port))) | (
            function.spec_mask() << afr_high_shift(port)),
    {
        let sh: u32 = ((port - 8) as u32) * 4;
        let mask = function.mask();

        self.0 &= !(AFR_MASK << sh);
        self.0 |= mask << sh;
    }

    /// Get the alternate function for a pin in [8..15].
    pub fn get_function(&self, port: u8) -> (r: AlternateFunction)
        requires
            8 <= port <= 15,
            (self.0 >> afr_high_shift(port)) & AFR_MASK <= AF7,
        ensures
            r == AlternateFunction::spec_from_mask((self.0 >> afr_high_shift(port)) & AFR_MASK),
    {
        let sh: u32 = ((port - 8) as u32) * 4;
        let mask = (self.0 >> sh) & AFR_MASK;

        AlternateFunction::from_mask(mask)
    }
}

} // verus!
