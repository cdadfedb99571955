//! USART receive data register.

use vstd::prelude::*;

verus! {

/// Holds the byte the receiver delivered.
#[derive(Copy, Clone, Debug)]
pub struct RDR(pub u32);

impl RDR {
    /// Take the received byte.
    pub fn load(&self) -> (r: u8)
        ensures
            r == (self.0 & 0xff) as u8,
    {
        (self.0 & 0xff) as u8
    }
}

} // verus!
