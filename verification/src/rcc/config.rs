//! The clock configuration registers CFGR and CFGR2: the system clock
//! switch, the PLL source, multiplier and predivision factor.

use vstd::prelude::*;
use crate::rcc::clock_control::Clock;
use crate::rcc::defs::{
    CFGR_SW_CLEAR_MASK, CFGR_CLOCK_HSI, CFGR_CLOCK_HSE, CFGR_CLOCK_PLL, CFGR_CLOCK_HSI48,
    CFGR_SWS_MASK, CFGR_SWS_HSI, CFGR_SWS_HSE, CFGR_SWS_PLL, CFGR_SWS_HSI48, CFGR_PLLSRC_MASK,
    CFGR_PLLSRC_HSI_2, CFGR_PLLSRC_HSI_PREDIV, CFGR_PLLSRC_HSE_PREDIV, CFGR_PLLSRC_HSI48_PREDIV,
    CFGR_PLLMUL_MASK, CFGR_PLLMUL_SHIFT, CFGR2_PREDIV_MASK,
};

verus! {

/// The clock the system-clock-status field names.
pub open spec fn spec_sws_decode(r: u32) -> Clock {
    let bits = r & CFGR_SWS_MASK;
    if bits == CFGR_SWS_HSI {
        Clock::HSI
    } else if bits == CFGR_SWS_HSE {
        Clock::HSE
    } else if bits == CFGR_SWS_PLL {
        Clock::PLL
    } else {
        Clock::HSI48
    }
}

/// The switch code that selects a clock as the system clock.
pub open spec fn spec_sw_code(clock: Clock) -> u32 {
    match clock {
        Clock::HSI => CFGR_CLOCK_HSI,
        Clock::HSE => CFGR_CLOCK_HSE,
        Clock::PLL => CFGR_CLOCK_PLL,
        Clock::HSI48 => CFGR_CLOCK_HSI48,
        _ => 0,
    }
}

/// The clock the PLL-source field names; both encodings of HSI decode to
/// HSI.
pub open spec fn spec_pllsrc_decode(r: u32) -> Clock {
    let bits = r & CFGR_PLLSRC_MASK;
    if bits == CFGR_PLLSRC_HSE_PREDIV {
        Clock::HSE
    } else if bits == CFGR_PLLSRC_HSI48_PREDIV {
        Clock::HSI48
    } else {
        Clock::HSI
    }
}

/// The source code that selects a clock to drive the PLL.
pub open spec fn spec_pllsrc_code(clock: Clock) -> u32 {
    match clock {
        Clock::HSI => CFGR_PLLSRC_HSI_2,
        Clock::HSE => CFGR_PLLSRC_HSE_PREDIV,
        Clock::HSI48 => CFGR_PLLSRC_HSI48_PREDIV,
        _ => 0,
    }
}

/// The PLL multiplier the register encodes: the field value plus two,
/// saturating at sixteen.
pub open spec fn spec_pll_multiplier(r: u32) -> u32 {
    let bits = (r & CFGR_PLLMUL_MASK) >> CFGR_PLLMUL_SHIFT;
    if bits + 2 > 16 {
        16
    } else {
        (bits + 2) as u32
    }
}

/// The PLL predivision factor the register encodes: the field value plus
/// one.
pub open spec fn spec_pll_prediv(r: u32) -> u32 {
    ((r & CFGR2_PREDIV_MASK) + 1) as u32
}

/// Clock configuration register.
#[derive(Copy, Clone, Debug)]
pub struct CFGR(pub u32);

impl CFGR {
    /// The clock currently driving the system clock.
    pub fn get_system_clock_source(&self) -> (r: Clock)
        ensures
            r == spec_sws_decode(self.0),
    {
        let set_bits = self.0 & CFGR_SWS_MASK;

        if set_bits == CFGR_SWS_HSI {
            Clock::HSI
        } else if set_bits == CFGR_SWS_HSE {
            Clock::HSE
        } else if set_bits == CFGR_SWS_PLL {
            Clock::PLL
        } else {
            Clock::HSI48
        }
    }

    /// Select the clock driving the system clock; only HSI, HSE, PLL and
    /// HSI48 can be system clock sources.
    pub fn set_system_clock_source(&mut self, clock: Clock)
        requires
            clock is HSI || clock is HSE || clock is PLL || clock is HSI48,
        ensures
            final(self).0 == (old(self).0 & !CFGR_SW_CLEAR_MASK) | spec_sw_code(clock),
    {
        let mask = match clock {
            Clock::HSI => CFGR_CLOCK_HSI,
            Clock::HSE => CFGR_CLOCK_HSE,
            Clock::PLL => CFGR_CLOCK_PLL,
            Clock::HSI48 => CFGR_CLOCK_HSI48,
            _ => 0,
        };

        self.0 &= !CFGR_SW_CLEAR_MASK;
        self.0 |= mask;
    }

    /// The clock currently driving the PLL.
    pub fn get_pll_source(&self) -> (r: Clock)
        ensures
            r == spec_pllsrc_decode(self.0),
    {
        let set_bits = self.0 & CFGR_PLLSRC_MASK;

        if set_bits == CFGR_PLLSRC_HSE_PREDIV {
            Clock::HSE
        } else if set_bits == CFGR_PLLSRC_HSI48_PREDIV {
            Clock::HSI48
        } else {
            Clock::HSI
        }
    }

    /// Select the clock driving the PLL; only HSI, HSE and HSI48 can drive
    /// it.
    pub fn set_pll_source(&mut self, clock: Clock)
        requires
            clock is HSI || clock is HSE || clock is HSI48,
        ensures
            final(self).0 == (old(self).0 & !CFGR_PLLSRC_MASK) | spec_pllsrc_code(clock),
    {
        let mask = match clock {
            Clock::HSI => CFGR_PLLSRC_HSI_2,
            Clock::HSE => CFGR_PLLSRC_HSE_PREDIV,
            Clock::HSI48 => CFGR_PLLSRC_HSI48_PREDIV,
            _ => 0,
        };

        self.0 &= !CFGR_PLLSRC_MASK;
        self.0 |= mask;
    }

    /// The current PLL multiplier, in [2..16].
    pub fn get_pll_multiplier(&self) -> (r: u8)
        ensures
            r == spec_pll_multiplier(self.0),
            2 <= r <= 16,
    {
        let set_bits = (self.0 & CFGR_PLLMUL_MASK) >> CFGR_PLLMUL_SHIFT;
        proof {
            let v = self.0;
            assert((v & CFGR_PLLMUL_MASK) >> CFGR_PLLMUL_SHIFT <= 15) by (bit_vector);
        }

        let mut mul: u32 = set_bits + 2;
        if mul > 16 {
            mul = 16;
        }
        mul as u8
    }

    /// Set the PLL multiplier; the multiplier must lie in [2..16].
    pub fn set_pll_multiplier(&mut self, mul: u8)
        requires
            2 <= mul <= 16,
        ensures
            final(self).0 == (old(self).0 & !CFGR_PLLMUL_MASK) | (((mul - 2) as u32)
                << CFGR_PLLMUL_SHIFT),
    {
        let mask = ((mul - 2) as u32) << CFGR_PLLMUL_SHIFT;

        self.0 &= !CFGR_PLLMUL_MASK;
        self.0 |= mask;
    }
}

/// Second clock configuration register.
#[derive(Copy, Clone, Debug)]
pub struct CFGR2(pub u32);

impl CFGR2 {
    /// The current PLL predivision factor, in [1..16].
    pub fn get_pll_prediv_factor(&self) -> (r: u8)
        ensures
            r == spec_pll_prediv(self.0),
            1 <= r <= 16,
    {
        let set_bits = self.0 & CFGR2_PREDIV_MASK;
        proof {
            let v = self.0;
            assert(v & CFGR2_PREDIV_MASK <= 15) by (bit_vector);
        }

        (set_bits + 1) as u8
    }

    /// Set the PLL predivision factor; the factor must lie in [1..16].
    pub fn set_pll_prediv_factor(&mut self, factor: u8)
        requires
            1 <= factor <= 16,
        ensures
            final(self).0 == (old(self).0 & !CFGR2_PREDIV_MASK) | ((factor - 1) as u32),
    {
        let mask = (factor - 1) as u32;

        self.0 &= !CFGR2_PREDIV_MASK;
        self.0 |= mask;
    }
}

} // verus!
