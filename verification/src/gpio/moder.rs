//! GPIO port mode register: one 2-bit mode field per pin.

use vstd::prelude::*;
use crate::field::Field;
use crate::gpio::defs::{MODE_MASK, MODE_INPUT, MODE_OUTPUT, MODE_ALTERNATE, MODE_ANALOG};

verus! {

/// Defines available modes for the GPIO pins.
#[derive(Copy, Clone, Debug, PartialEq, Eq, Structural)]
pub enum Mode {
    /// Pin configured for input data.
    Input,
    /// Pin configured for output data.
    Output,
    /// Pin configured for an alternate function.
    Alternate,
    /// Pin configured to receive analog signal.
    Analog,
}

impl Field for Mode {
    open spec fn spec_mask(&self) -> u32 {
        match *self {
            Mode::Input => MODE_INPUT,
            Mode::Output => MODE_OUTPUT,
            Mode::Alternate => MODE_ALTERNATE,
            Mode::Analog => MODE_ANALOG,
        }
    }

    fn mask(&self) -> (r: u32) {
        match *self {
            Mode::Input => MODE_INPUT,
            Mode::Output => MODE_OUTPUT,
            Mode::Alternate => MODE_ALTERNATE,
            Mode::Analog => MODE_ANALOG,
        }
    }
}

impl Mode {
    /// The mode a 2-bit field value decodes to.
    pub open spec fn spec_from_mask(mask: u32) -> Mode {
        if mask == MODE_INPUT {
            Mode::Input
        } else if mask == MODE_OUTPUT {
            Mode::Output
        } else if mask == MODE_ALTERNATE {
            Mode::Alternate
        } else {
            Mode::Analog
        }
    }

    fn from_mask(mask: u32) -> (r: Mode)
        requires
            mask <= MODE_ANALOG,
        ensures
            r == Mode::spec_from_mask(mask),
    {
        if mask == MODE_INPUT {
            Mode::Input
        } else if mask == MODE_OUTPUT {
            Mode::Output
        } else if mask == MODE_ALTERNATE {
            Mode::Alternate
        } else {
            Mode::Analog
        }
    }
}

/// GPIO port mode register.
#[derive(Copy, Clone, Debug)]
pub struct MODER(pub u32);

/// The shift of a pin's 2-bit field within MODER, OSPEEDR or PUPDR.
pub open spec fn pin_field_shift(port: u8) -> u32 {
    (port * 2) as u32
}

impl MODER {
    /// Set the mode for the specified port; the port must be a value in
    /// [0..15].
    pub fn set_mode(&mut self, mode: Mode, port: u8)
        requires
            port <= 15,
        ensures
            final(self).0 == (old(self).0 & !(MODE_MASK << pin_field_shift(port))) | (
            mode.spec_mask() << pin_field_shift(port)),
    {
        let sh: u32 = (port as u32) * 2;
        let mask = mode.mask();

        self.0 &= !(MODE_MASK << sh);
        self.0 |= mask << sh;
    }

    /// Get the current mode for the specified port; the port must be a value
    /// in [0..15].
    pub fn get_mode(&self, port: u8) -> (r: Mode)
        requires
            port <= 15,
        ensures
            r == Mode::spec_from_mask((self.0 >> pin_field_shift(port)) & MODE_MASK),
    {
        let sh: u32 = (port as u32) * 2;
        let mask = (self.0 >> sh) & MODE_MASK;

        proof {
            let v = self.0;
            assert((v >> sh) & MODE_MASK <= MODE_ANALOG) by (bit_vector);
        }
        Mode::from_mask(mask)
    }
}

} // verus!
