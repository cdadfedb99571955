//! System tick current value register.

use vstd::prelude::*;
use crate::systick::defs::{CURRENT, CLEAR_VALUE};

verus! {

/// The counter's current value; any write clears it.
#[derive(Copy, Clone, Debug)]
pub struct CVR(pub u32);

impl CVR {
    /// The counter's current value.
    pub fn get_current_value(&self) -> (r: u32)
        ensures
            r == self.0 & CURRENT,
    {
        self.0 & CURRENT
    }

    /// Clear the counter.
    pub fn clear_current_value(&mut self)
        ensures
            final(self).0 == CLEAR_VALUE,
    {
        self.0 = CLEAR_VALUE;
    }
}

} // verus!
