//! GPIO output type register: one bit per pin.

use vstd::prelude::*;
use crate::field::Field;
use crate::gpio::defs::{TYPE_PUSHPULL, TYPE_OPENDRAIN};

verus! {

/// Available GPIO pin types.
#[derive(Copy, Clone, Debug, PartialEq, Eq, Structural)]
pub enum Type {
    /// Actively drives the output to High.
    PushPull,
    /// Passively drives the output to High by an internal or external pull-up
    /// resistor.
    OpenDrain,
}

impl Field for Type {
    open spec fn spec_mask(&self) -> u32 {
        match *self {
            Type::PushPull => TYPE_PUSHPULL,
            Type::OpenDrain => TYPE_OPENDRAIN,
        }
    }

    fn mask(&self) -> (r: u32) {
        match *self {
            Type::PushPull => TYPE_PUSHPULL,
            Type::OpenDrain => TYPE_OPENDRAIN,
        }
    }
}

impl Type {
    /// The pin type a 1-bit field value decodes to.
    pub open spec fn spec_from_mask(mask: u32) -> Type {
        if mask == TYPE_PUSHPULL {
            Type::PushPull
        } else {
            Type::OpenDrain
        }
    }

    fn from_mask(mask: u32) -> (r: Type)
        requires
            mask <= TYPE_OPENDRAIN,
        ensures
            r == Type::spec_from_mask(mask),
    {
        if mask == TYPE_PUSHPULL {
            Type::PushPull
        } else {
            Type::OpenDrain
        }
    }
}

/// GPIO output type register.
#[derive(Copy, Clone, Debug)]
pub struct OTYPER(pub u32);

impl OTYPER {
    /// Set the output type for the specified port; the port must be a value
    /// in [0..15].
    pub fn set_type(&mut self, new_type: Type, port: u8)
        requires
            port <= 15,
        ensures
            new_type is PushPull ==> final(self).0 == old(self).0 & !(1u32 << (port as u32)),
            new_type is OpenDrain ==> final(self).0 == old(self).0 | (1u32 << (port as u32)),
    {
        let sh: u32 = port as u32;
        match new_type {
            Type::PushPull => self.0 &= !(0b1u32 << sh),
            Type::OpenDrain => self.0 |= 0b1u32 << sh,
        }
    }

    /// Get the output type for the specified port; the port must be a value
    /// in [0..15].
    pub fn get_type(&self, port: u8) -> (r: Type)
        requires
            port <= 15,
        ensures
            r == Type::spec_from_mask((self.0 >> (port as u32)) & 1),
    {
        let sh: u32 = port as u32;
        let mask = (self.0 >> sh) & 1;

        proof {
            let v = self.0;
            assert((v >> sh) & 1 <= TYPE_OPENDRAIN) by (bit_vector);
        }
        Type::from_mask(mask)
    }
}

} // verus!
