//! Device address register: holds the address the host assigns the device
//! for use during transactions.

use vstd::prelude::*;

verus! {

/// The DADDR register value.
#[derive(Copy, Clone, Debug)]
pub struct DADDR(pub u32);

impl DADDR {
    /// A register in its reset state.
    pub fn new() -> (r: DADDR)
        ensures
            r.0 == 0,
    {
        DADDR(0)
    }
}

} // verus!
