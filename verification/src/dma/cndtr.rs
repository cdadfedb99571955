//! DMA channel number-of-data register.

use vstd::prelude::*;

verus! {

/// Holds how many data items remain to transfer; only the low sixteen bits
/// are writable.
#[derive(Copy, Clone, Debug)]
pub struct CNDTR(pub u32);

impl CNDTR {
    /// Set the number of data items to transfer, up to 65535.
    pub fn set_ndt(&mut self, num_data: u16)
        ensures
            final(self).0 == num_data as u32,
    {
        self.0 = num_data as u32;
    }
}

} // verus!
