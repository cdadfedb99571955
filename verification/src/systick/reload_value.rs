//! System tick reload value register.

use vstd::prelude::*;
use crate::systick::defs::RELOAD;

verus! {

/// The value the counter reloads when it reaches zero.
#[derive(Copy, Clone, Debug)]
pub struct RVR(pub u32);

impl RVR {
    /// The current reload value.
    pub fn get_reload_value(&self) -> (r: u32)
        ensures
            r == self.0 & RELOAD,
    {
        self.0 & RELOAD
    }

    /// Set the reload value; it must fit the register's 24 bits.
    pub fn set_reload_value(&mut self, value: u32)
        requires
            value & !RELOAD == 0,
        ensures
            final(self).0 == value,
    {
        self.0 = value;
    }
}

} // verus!
