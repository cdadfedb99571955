//! System tick control and status register.

use vstd::prelude::*;
use crate::systick::defs::{ENABLE, TICKINT, CLKSOURCE, COUNTFLAG};

verus! {

/// The clock the tick timer counts with.
#[derive(Copy, Clone, Debug, PartialEq, Eq, Structural)]
pub enum ClockSource {
    Reference,
    Processor,
}

/// Control and status register of the tick timer.
#[derive(Copy, Clone, Debug)]
pub struct CSR(pub u32);

impl CSR {
    /// Start or stop the counter.
    pub fn set_enable(&mut self, enable: bool)
        ensures
            enable ==> final(self).0 == old(self).0 | ENABLE,
            !enable ==> final(self).0 == old(self).0 & !ENABLE,
    {
        if enable {
            self.0 |= ENABLE;
        } else {
            self.0 &= !ENABLE;
        }
    }

    /// Enable or disable the tick interrupt.
    pub fn set_interrupt(&mut self, enable: bool)
        ensures
            enable ==> final(self).0 == old(self).0 | TICKINT,
            !enable ==> final(self).0 == old(self).0 & !TICKINT,
    {
        if enable {
            self.0 |= TICKINT;
        } else {
            self.0 &= !TICKINT;
        }
    }

    /// Select the counting clock.
    pub fn set_source(&mut self, source: ClockSource)
        ensures
            source is Reference ==> final(self).0 == old(self).0 & !CLKSOURCE,
            source is Processor ==> final(self).0 == old(self).0 | CLKSOURCE,
    {
        match source {
            ClockSource::Reference => self.0 &= !CLKSOURCE,
            ClockSource::Processor => self.0 |= CLKSOURCE,
        };
    }

    /// Whether the counter reached zero since this was last read.
    pub fn did_underflow(&self) -> (r: bool)
        ensures
            r == (self.0 & COUNTFLAG != 0),
    {
        (self.0 & COUNTFLAG) != 0
    }
}

} // verus!
