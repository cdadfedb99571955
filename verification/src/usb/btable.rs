//! One buffer-descriptor-table entry per endpoint slot.
//!
//! The hardware engine reads this table directly: it must hold the RX and TX
//! buffer addresses exactly as the allocator handed them out, along with the
//! byte counts for each direction.  The entry itself is a plain data holder;
//! correctness comes from the construction order in controller init.

use vstd::prelude::*;

verus! {

/// A buffer-descriptor-table entry.
#[derive(Copy, Clone, Debug)]
pub struct BTABLE {
    pub rx_addr: u32,
    pub tx_addr: u32,
    pub rx_count: u32,
    pub tx_count: u32,
}

impl BTABLE {
    /// Build an entry from the addresses the allocator handed out and the
    /// initial counts.
    pub fn new(rx_addr: u32, tx_addr: u32, rx_count: u32, tx_count: u32) -> (r: BTABLE)
        ensures
            r.rx_addr == rx_addr,
            r.tx_addr == tx_addr,
            r.rx_count == rx_count,
            r.tx_count == tx_count,
    {
        BTABLE { rx_addr, tx_addr, rx_count, tx_count }
    }

    /// The endpoint's receive-buffer address.
    pub fn get_rx_addr(&self) -> (r: u32)
        ensures
            r == self.rx_addr,
    {
        self.rx_addr
    }

    /// The endpoint's transmit-buffer address.
    pub fn get_tx_addr(&self) -> (r: u32)
        ensures
            r == self.tx_addr,
    {
        self.tx_addr
    }

    /// The receive byte count, in the hardware's count encoding.
    pub fn get_rx_count(&self) -> (r: u32)
        ensures
            r == self.rx_count,
    {
        self.rx_count
    }

    /// The transmit byte count.
    pub fn get_tx_count(&self) -> (r: u32)
        ensures
            r == self.tx_count,
    {
        self.tx_count
    }

    /// Set the receive byte count.
    pub fn set_rx_count(&mut self, rx_count: u32)
        ensures
            *final(self) == (BTABLE { rx_count, ..*old(self) }),
    {
        self.rx_count = rx_count;
    }

    /// Set the transmit byte count.
    pub fn set_tx_count(&mut self, tx_count: u32)
        ensures
            *final(self) == (BTABLE { tx_count, ..*old(self) }),
    {
        self.tx_count = tx_count;
    }
}

} // verus!
