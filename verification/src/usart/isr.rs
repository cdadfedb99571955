//! USART interrupt and status register.

use vstd::prelude::*;
use crate::usart::defs::{ISR_RXNE, ISR_TC, ISR_TXE};

verus! {

/// Status flags of the USART.
#[derive(Copy, Clone, Debug)]
pub struct ISR(pub u32);

impl ISR {
    /// Whether the receive data register holds a byte.
    pub fn get_rxne(&self) -> (r: bool)
        ensures
            r == (self.0 & ISR_RXNE != 0),
    {
        self.0 & ISR_RXNE != 0
    }

    /// Whether the transmission of the last series of packets finished.
    pub fn get_tc(&self) -> (r: bool)
        ensures
            r == (self.0 & ISR_TC != 0),
    {
        self.0 & ISR_TC != 0
    }

    /// Whether the transmit data register is ready for another byte.
    pub fn get_txe(&self) -> (r: bool)
        ensures
            r == (self.0 & ISR_TXE != 0),
    {
        self.0 & ISR_TXE != 0
    }
}

} // verus!
