//! The interrupt priority registers: each holds four 2-bit priority fields,
//! one per interrupt line, in the top bits of each byte.

use vstd::prelude::*;
use crate::field::Field;
use crate::interrupt::defs::{
    IPR_PRIORITY_FIELD_MASK, IPR_PRIORITY_HIGHEST, IPR_PRIORITY_HIGH, IPR_PRIORITY_LOW,
    IPR_PRIORITY_LOWEST,
};

verus! {

/// The priority levels an interrupt line can take.
#[allow(missing_docs)]
#[derive(Copy, Clone, Debug, PartialEq, Eq, Structural)]
pub enum Priority {
    Highest,
    High,
    Low,
    Lowest,
}

impl Field for Priority {
    open spec fn spec_mask(&self) -> u32 {
        match *self {
            Priority::Highest => IPR_PRIORITY_HIGHEST,
            Priority::High => IPR_PRIORITY_HIGH,
            Priority::Low => IPR_PRIORITY_LOW,
            Priority::Lowest => IPR_PRIORITY_LOWEST,
        }
    }

    fn mask(&self) -> (r: u32) {
        match *self {
            Priority::Highest => IPR_PRIORITY_HIGHEST,
            Priority::High => IPR_PRIORITY_HIGH,
            Priority::Low => IPR_PRIORITY_LOW,
            Priority::Lowest => IPR_PRIORITY_LOWEST,
        }
    }
}

impl Priority {
    /// The priority a 2-bit field value, already shifted into place,
    /// decodes to.
    pub open spec fn spec_from_mask(mask: u32) -> Priority {
        if mask == IPR_PRIORITY_HIGHEST {
            Priority::Highest
        } else if mask == IPR_PRIORITY_HIGH {
            Priority::High
        } else if mask == IPR_PRIORITY_LOW {
            Priority::Low
        } else {
            Priority::Lowest
        }
    }

    fn from_mask(mask: u32) -> (r: Priority)
        requires
            mask == IPR_PRIORITY_HIGHEST || mask == IPR_PRIORITY_HIGH || mask == IPR_PRIORITY_LOW
                || mask == IPR_PRIORITY_LOWEST,
        ensures
            r == Priority::spec_from_mask(mask),
    {
        if mask == IPR_PRIORITY_HIGHEST {
            Priority::Highest
        } else if mask == IPR_PRIORITY_HIGH {
            Priority::High
        } else if mask == IPR_PRIORITY_LOW {
            Priority::Low
        } else {
            Priority::Lowest
        }
    }
}

/// One interrupt priority register, holding the fields of four lines.
#[derive(Copy, Clone, Debug)]
pub struct IPR(pub u32);

impl IPR {
    /// Set the priority field of one of this register's four lines.
    pub fn set_priority(&mut self, priority: Priority, interrupt: u8)
        requires
            interrupt < 4,
        ensures
            final(self).0 == (old(self).0 & !(IPR_PRIORITY_FIELD_MASK << ((interrupt
                * 8) as u32))) | (priority.spec_mask() << ((interrupt * 8) as u32)),
    {
        let mask = priority.mask();
        let interrupt_shift: u32 = (interrupt as u32) * 8;

        self.0 &= !(IPR_PRIORITY_FIELD_MASK << interrupt_shift);
        self.0 |= mask << interrupt_shift;
    }

    /// Read the priority field of one of this register's four lines.
    pub fn get_priority(&self, interrupt: u8) -> (r: Priority)
        requires
            interrupt < 4,
        ensures
            r == Priority::spec_from_mask(
                (self.0 & (IPR_PRIORITY_FIELD_MASK << ((interrupt * 8) as u32))) >> ((interrupt
                    * 8) as u32),
            ),
    {
        let interrupt_shift: u32 = (interrupt as u32) * 8;
        let mask = (self.0 & (IPR_PRIORITY_FIELD_MASK << interrupt_shift)) >> interrupt_shift;
        proof {
            let v = self.0;
            let sh = interrupt_shift;
            assert(((v & (IPR_PRIORITY_FIELD_MASK << sh)) >> sh == IPR_PRIORITY_HIGHEST) || ((v & (
            IPR_PRIORITY_FIELD_MASK << sh)) >> sh == IPR_PRIORITY_HIGH) || ((v & (
            IPR_PRIORITY_FIELD_MASK << sh)) >> sh == IPR_PRIORITY_LOW) || ((v & (
            IPR_PRIORITY_FIELD_MASK << sh)) >> sh == IPR_PRIORITY_LOWEST)) by (bit_vector)
                requires
                    sh == 0 || sh == 8 || sh == 16 || sh == 24,
            ;
        }
        Priority::from_mask(mask)
    }
}

} // verus!
