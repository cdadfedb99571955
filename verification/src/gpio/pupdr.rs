//! GPIO pull-up/pull-down register: one 2-bit pull field per pin.

use vstd::prelude::*;
use crate::field::Field;
use crate::gpio::defs::{PUPD_MASK, PUPD_NEITHER, PUPD_UP, PUPD_DOWN};
use crate::gpio::moder::pin_field_shift;

verus! {

/// Defines the behavior of the GPIO pin when not asserted.
#[derive(Copy, Clone, Debug, PartialEq, Eq, Structural)]
pub enum Pull {
    /// No behavior.
    Neither,
    /// Pull toward high voltage.
    Up,
    /// Pull toward low voltage.
    Down,
}

impl Field for Pull {
    open spec fn spec_mask(&self) -> u32 {
        match *self {
            Pull::Neither => PUPD_NEITHER,
            Pull::Up => PUPD_UP,
            Pull::Down => PUPD_DOWN,
        }
    }

    fn mask(&self) -> (r: u32) {
        match *self {
            Pull::Neither => PUPD_NEITHER,
            Pull::Up => PUPD_UP,
            Pull::Down => PUPD_DOWN,
        }
    }
}

impl Pull {
    /// The pull a 2-bit field value decodes to; 0b11 is reserved and decodes
    /// to nothing.
    pub open spec fn spec_from_mask(mask: u32) -> Pull {
        if mask == PUPD_NEITHER {
            Pull::Neither
        } else if mask == PUPD_UP {
            Pull::Up
        } else {
            Pull::Down
        }
    }

    fn from_mask(mask: u32) -> (r: Pull)
        requires
            mask <= PUPD_DOWN,
        ensures
            r == Pull::spec_from_mask(mask),
    {
        if mask == PUPD_NEITHER {
            Pull::Neither
        } else if mask == PUPD_UP {
            Pull::Up
        } else {
            Pull::Down
        }
    }
}

/// GPIO pull-up/pull-down register.
#[derive(Copy, Clone, Debug)]
pub struct PUPDR(pub u32);

impl PUPDR {
    /// Set the pull for the specified port; the port must be a value in
    /// [0..15].
    pub fn set_pull(&mut self, pull: Pull, port: u8)
        requires
            port <= 15,
        ensures
            final(self).0 == (old(self).0 & !(PUPD_MASK << pin_field_shift(port))) | (
            pull.spec_mask() << pin_field_shift(port)),
    {
        let sh: u32 = (port as u32) * 2;
        let mask = pull.mask();

        self.0 &= !(PUPD_MASK << sh);
        self.0 |= mask << sh;
    }

    /// Get the pull for the specified port; the port must be a value in
    /// [0..15] and the field must not hold the reserved encoding.
    pub fn get_pull(&self, port: u8) -> (r: Pull)
        requires
            port <= 15,
            (self.0 >> pin_field_shift(port)) & PUPD_MASK != 0b11,
        ensures
            r == Pull::spec_from_mask((self.0 >> pin_field_shift(port)) & PUPD_MASK),
    {
        let sh: u32 = (port as u32) * 2;
        let mask = (self.0 >> sh) & PUPD_MASK;

        proof {
            let v = self.0;
            assert((v >> sh) & PUPD_MASK <= 0b11) by (bit_vector);
        }
        Pull::from_mask(mask)
    }
}

} // verus!
