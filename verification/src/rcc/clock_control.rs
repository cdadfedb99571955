//! The clock control registers CR and CR2: turning the system clocks on and
//! off and reading their ready flags.

use vstd::prelude::*;
use crate::rcc::defs::{
    CR_HSION, CR_HSIRDY, CR_HSEON, CR_HSERDY, CR_PLLON, CR_PLLRDY, CR2_HSI14ON, CR2_HSI14RDY,
    CR2_HSI48ON, CR2_HSI48RDY,
};

verus! {

/// Defines available system clocks.
#[derive(Copy, Clone, Debug, PartialEq, Eq, Structural)]
pub enum Clock {
    /// High Speed Internal: 8 MHz
    HSI,
    /// High Speed Internal: 48 MHz
    HSI48,
    /// High Speed Internal: 14 MHz
    HSI14,
    /// High Speed External: Variable Speed
    HSE,
    /// Phase Locked Loop: Variable Speed
    PLL,
}

/// The on-bit CR holds for each of its clocks.
pub open spec fn spec_cr_on_mask(clock: Clock) -> u32 {
    match clock {
        Clock::PLL => CR_PLLON,
        Clock::HSE => CR_HSEON,
        Clock::HSI => CR_HSION,
        _ => 0,
    }
}

/// The ready-bit CR holds for each of its clocks.
pub open spec fn spec_cr_ready_mask(clock: Clock) -> u32 {
    match clock {
        Clock::PLL => CR_PLLRDY,
        Clock::HSE => CR_HSERDY,
        Clock::HSI => CR_HSIRDY,
        _ => 0,
    }
}

/// The on-bit CR2 holds for each of its clocks.
pub open spec fn spec_cr2_on_mask(clock: Clock) -> u32 {
    match clock {
        Clock::HSI48 => CR2_HSI48ON,
        Clock::HSI14 => CR2_HSI14ON,
        _ => 0,
    }
}

/// The ready-bit CR2 holds for each of its clocks.
pub open spec fn spec_cr2_ready_mask(clock: Clock) -> u32 {
    match clock {
        Clock::HSI48 => CR2_HSI48RDY,
        Clock::HSI14 => CR2_HSI14RDY,
        _ => 0,
    }
}

/// The CR register only controls the PLL, HSE and HSI clocks; its methods
/// may only be asked about those.
#[derive(Copy, Clone, Debug)]
pub struct CR(pub u32);

impl CR {
    /// Set a clock on if `enable` is true, off otherwise.
    ///
    /// When enabling, the return value is always true; when disabling, it
    /// is true when the clock's on-bit reads back clear.
    pub fn set_clock(&mut self, enable: bool, clock: Clock) -> (r: bool)
        requires
            clock is PLL || clock is HSE || clock is HSI,
        ensures
            enable ==> final(self).0 == old(self).0 | spec_cr_on_mask(clock) && r,
            !enable ==> final(self).0 == old(self).0 & !spec_cr_on_mask(clock) && r == (
            final(self).0 & spec_cr_on_mask(clock) == 0),
    {
        let mask = match clock {
            Clock::PLL => CR_PLLON,
            Clock::HSE => CR_HSEON,
            Clock::HSI => CR_HSION,
            _ => 0,
        };

        if enable {
            self.0 |= mask;
            true
        } else {
            self.0 &= !mask;
            (self.0 & mask) == 0
        }
    }

    /// Return true if the specified clock is enabled.
    pub fn clock_is_on(&self, clock: Clock) -> (r: bool)
        requires
            clock is PLL || clock is HSE || clock is HSI,
        ensures
            r == (self.0 & spec_cr_on_mask(clock) != 0),
    {
        let mask = match clock {
            Clock::PLL => CR_PLLON,
            Clock::HSE => CR_HSEON,
            Clock::HSI => CR_HSION,
            _ => 0,
        };

        (self.0 & mask) != 0
    }

    /// Return true if the specified clock is ready for use.
    pub fn clock_is_ready(&self, clock: Clock) -> (r: bool)
        requires
            clock is PLL || clock is HSE || clock is HSI,
        ensures
            r == (self.0 & spec_cr_ready_mask(clock) != 0),
    {
        let mask = match clock {
            Clock::PLL => CR_PLLRDY,
            Clock::HSE => CR_HSERDY,
            Clock::HSI => CR_HSIRDY,
            _ => 0,
        };

        (self.0 & mask) != 0
    }
}

/// The CR2 register only controls the HSI48 and HSI14 clocks; its methods
/// may only be asked about those.
#[derive(Copy, Clone, Debug)]
pub struct CR2(pub u32);

impl CR2 {
    /// Set a clock on if `enable` is true, off otherwise.
    ///
    /// When enabling, the return value is always true; when disabling, it
    /// is true when the clock's on-bit reads back clear.
    pub fn set_clock(&mut self, enable: bool, clock: Clock) -> (r: bool)
        requires
            clock is HSI48 || clock is HSI14,
        ensures
            enable ==> final(self).0 == old(self).0 | spec_cr2_on_mask(clock) && r,
            !enable ==> final(self).0 == old(self).0 & !spec_cr2_on_mask(clock) && r == (
            final(self).0 & spec_cr2_on_mask(clock) == 0),
    {
        let mask = match clock {
            Clock::HSI48 => CR2_HSI48ON,
            Clock::HSI14 => CR2_HSI14ON,
            _ => 0,
        };

        if enable {
            self.0 |= mask;
            true
        } else {
            self.0 &= !mask;
            (self.0 & mask) == 0
        }
    }

    /// Return true if the specified clock is enabled.
    pub fn clock_is_on(&self, clock: Clock) -> (r: bool)
        requires
            clock is HSI48 || clock is HSI14,
        ensures
            r == (self.0 & spec_cr2_on_mask(clock) != 0),
    {
        let mask = match clock {
            Clock::HSI48 => CR2_HSI48ON,
            Clock::HSI14 => CR2_HSI14ON,
            _ => 0,
        };

        (self.0 & mask) != 0
    }

    /// Return true if the specified clock is ready for use.
    pub fn clock_is_ready(&self, clock: Clock) -> (r: bool)
        requires
            clock is HSI48 || clock is HSI14,
        ensures
            r == (self.0 & spec_cr2_ready_mask(clock) != 0),
    {
        let mask = match clock {
            Clock::HSI48 => CR2_HSI48RDY,
            Clock::HSI14 => CR2_HSI14RDY,
            _ => 0,
        };

        (self.0 & mask) != 0
    }
}

} // verus!
