//! USART transmit data register.

use vstd::prelude::*;

verus! {

/// Holds the byte handed to the transmitter.
#[derive(Copy, Clone, Debug)]
pub struct TDR(pub u32);

impl TDR {
    /// Hand a byte to the transmitter.
    pub fn store(&mut self, byte: u8)
        ensures
            final(self).0 == byte as u32,
    {
        self.0 = byte as u32;
    }
}

} // verus!
