//! The reset and clock controller: enabling and disabling clocks, selecting
//! clock configurations, gating peripheral clocks, and tracking the system
//! clock rate those choices produce.

use vstd::prelude::*;

pub mod defs;
pub mod clock_control;
pub mod config;
pub mod enable;

pub use self::clock_control::{Clock, CR, CR2};
pub use self::config::{CFGR, CFGR2};
pub use self::enable::{Peripheral, AHBENR, APBENR1, APBENR2};

use crate::field::Field;
use crate::rcc::defs::{HSI_VALUE, HSE_VALUE, HSI48_VALUE, CFGR_SW_CLEAR_MASK};
use crate::rcc::clock_control::{spec_cr_on_mask, spec_cr_ready_mask, spec_cr2_on_mask,
    spec_cr2_ready_mask};
use crate::rcc::config::{spec_sws_decode, spec_sw_code, spec_pllsrc_decode, spec_pllsrc_code,
    spec_pll_multiplier, spec_pll_prediv};
use crate::rcc::enable::{spec_serves_ahb, spec_serves_apb1, spec_serves_apb2};

verus! {

/// Every peripheral hangs off exactly one of the three enable registers.
proof fn lemma_peripheral_served(p: Peripheral)
    ensures
        spec_serves_ahb(p) || spec_serves_apb1(p) || spec_serves_apb2(p),
{
}

/// The system clock rate a clock configuration produces: the fixed rate of
/// the selected source, or the PLL's input rate divided by its predivision
/// factor and multiplied by its multiplier.
pub open spec fn spec_clock_rate_of(cfgr: u32, cfgr2: u32) -> int {
    let source = spec_sws_decode(cfgr);
    if source is HSI {
        HSI_VALUE as int
    } else if source is HSE {
        HSE_VALUE as int
    } else if source is HSI48 {
        HSI48_VALUE as int
    } else {
        let m = spec_pll_multiplier(cfgr) as int;
        let p = spec_pll_prediv(cfgr2) as int;
        let pll_source = spec_pllsrc_decode(cfgr);
        if pll_source is HSE {
            (HSE_VALUE as int / p) * m
        } else if pll_source is HSI48 {
            (HSI48_VALUE as int / p) * m
        } else {
            (HSI_VALUE as int / 2) * m
        }
    }
}

/// Reset and clock controller register block, laid out as the hardware
/// presents it, plus the derived system clock rate the driver keeps beside
/// the registers.
#[derive(Copy, Clone, Debug)]
pub struct RawRCC {
    pub cr: CR,
    pub cfgr: CFGR,
    pub cir: u32,
    pub apb2rstr: u32,
    pub apb1rstr: u32,
    pub ahbenr: AHBENR,
    pub apbenr2: APBENR2,
    pub apbenr1: APBENR1,
    pub bdcr: u32,
    pub csr: u32,
    pub ahbrstr: u32,
    pub cfgr2: CFGR2,
    pub cfgr3: u32,
    pub cr2: CR2,
    /// The rate the system clock runs at under the current configuration.
    pub clock_rate: u32,
}

/// The controller in its reset state.
pub fn rcc() -> (r: RawRCC)
    ensures
        r == RawRCC::spec_reset(),
{
    RawRCC::new()
}

impl RawRCC {
    /// The reset state: every register zero.
    pub open spec fn spec_reset() -> RawRCC {
        RawRCC {
            cr: CR(0),
            cfgr: CFGR(0),
            cir: 0,
            apb2rstr: 0,
            apb1rstr: 0,
            ahbenr: AHBENR(0),
            apbenr2: APBENR2(0),
            apbenr1: APBENR1(0),
            bdcr: 0,
            csr: 0,
            ahbrstr: 0,
            cfgr2: CFGR2(0),
            cfgr3: 0,
            cr2: CR2(0),
            clock_rate: 0,
        }
    }

    /// The controller in its reset state.
    pub fn new() -> (r: RawRCC)
        ensures
            r == RawRCC::spec_reset(),
    {
        RawRCC {
            cr: CR(0),
            cfgr: CFGR(0),
            cir: 0,
            apb2rstr: 0,
            apb1rstr: 0,
            ahbenr: AHBENR(0),
            apbenr2: APBENR2(0),
            apbenr1: APBENR1(0),
            bdcr: 0,
            csr: 0,
            ahbrstr: 0,
            cfgr2: CFGR2(0),
            cfgr3: 0,
            cr2: CR2(0),
            clock_rate: 0,
        }
    }

    /// Enable the specified clock.
    pub fn enable_clock(&mut self, clock: Clock)
        ensures
            (clock is HSI || clock is HSE || clock is PLL) ==> *final(self) == (RawRCC {
                cr: CR(old(self).cr.0 | spec_cr_on_mask(clock)),
                ..*old(self)
            }),
            (clock is HSI48 || clock is HSI14) ==> *final(self) == (RawRCC {
                cr2: CR2(old(self).cr2.0 | spec_cr2_on_mask(clock)),
                ..*old(self)
            }),
    {
        match clock {
            Clock::HSI | Clock::HSE | Clock::PLL => self.cr.set_clock(true, clock),
            Clock::HSI48 | Clock::HSI14 => self.cr2.set_clock(true, clock),
        };
    }

    /// Disable the specified clock; returns true when the clock's on-bit
    /// reads back clear.
    pub fn disable_clock(&mut self, clock: Clock) -> (r: bool)
        ensures
            (clock is HSI || clock is HSE || clock is PLL) ==> *final(self) == (RawRCC {
                cr: CR(old(self).cr.0 & !spec_cr_on_mask(clock)),
                ..*old(self)
            }) && r == (final(self).cr.0 & spec_cr_on_mask(clock) == 0),
            (clock is HSI48 || clock is HSI14) ==> *final(self) == (RawRCC {
                cr2: CR2(old(self).cr2.0 & !spec_cr2_on_mask(clock)),
                ..*old(self)
            }) && r == (final(self).cr2.0 & spec_cr2_on_mask(clock) == 0),
    {
        match clock {
            Clock::HSI | Clock::HSE | Clock::PLL => self.cr.set_clock(false, clock),
            Clock::HSI48 | Clock::HSI14 => self.cr2.set_clock(false, clock),
        }
    }

    /// Return true if the specified clock is enabled.
    pub fn clock_is_on(&self, clock: Clock) -> (r: bool)
        ensures
            (clock is HSI || clock is HSE || clock is PLL) ==> r == (self.cr.0 & spec_cr_on_mask(
                clock,
            ) != 0),
            (clock is HSI48 || clock is HSI14) ==> r == (self.cr2.0 & spec_cr2_on_mask(clock)
                != 0),
    {
        match clock {
            Clock::HSI | Clock::HSE | Clock::PLL => self.cr.clock_is_on(clock),
            Clock::HSI48 | Clock::HSI14 => self.cr2.clock_is_on(clock),
        }
    }

    /// Return true if the specified clock is ready to drive the system
    /// clock.
    pub fn clock_is_ready(&self, clock: Clock) -> (r: bool)
        ensures
            (clock is HSI || clock is HSE || clock is PLL) ==> r == (self.cr.0
                & spec_cr_ready_mask(clock) != 0),
            (clock is HSI48 || clock is HSI14) ==> r == (self.cr2.0 & spec_cr2_ready_mask(clock)
                != 0),
    {
        match clock {
            Clock::HSI | Clock::HSE | Clock::PLL => self.cr.clock_is_ready(clock),
            Clock::HSI48 | Clock::HSI14 => self.cr2.clock_is_ready(clock),
        }
    }

    /// The clock driving the system clock.
    pub fn get_system_clock_source(&self) -> (r: Clock)
        ensures
            r == spec_sws_decode(self.cfgr.0),
    {
        self.cfgr.get_system_clock_source()
    }

    /// Select the system clock source and recompute the derived clock
    /// rate.  Only HSI, HSE, PLL and HSI48 can drive the system clock.
    /// Rearming the tick timer's reload for the new rate is the caller's
    /// business.
    pub fn set_system_clock_source(&mut self, clock: Clock)
        requires
            clock is HSI || clock is HSE || clock is PLL || clock is HSI48,
        ensures
            final(self).cfgr.0 == (old(self).cfgr.0 & !CFGR_SW_CLEAR_MASK) | spec_sw_code(clock),
            final(self).clock_rate == spec_clock_rate_of(final(self).cfgr.0, old(self).cfgr2.0),
            *final(self) == (RawRCC {
                cfgr: final(self).cfgr,
                clock_rate: final(self).clock_rate,
                ..*old(self)
            }),
    {
        self.cfgr.set_system_clock_source(clock);
        self.update_system_clock_rate();
    }

    /// The clock driving the PLL.
    pub fn get_pll_source(&self) -> (r: Clock)
        ensures
            r == spec_pllsrc_decode(self.cfgr.0),
    {
        self.cfgr.get_pll_source()
    }

    /// Select the clock driving the PLL; only HSI, HSE and HSI48 can drive
    /// it.
    pub fn set_pll_source(&mut self, clock: Clock)
        requires
            clock is HSI || clock is HSE || clock is HSI48,
        ensures
            *final(self) == (RawRCC {
                cfgr: CFGR(
                    (old(self).cfgr.0 & !crate::rcc::defs::CFGR_PLLSRC_MASK) | spec_pllsrc_code(
                        clock,
                    ),
                ),
                ..*old(self)
            }),
    {
        self.cfgr.set_pll_source(clock);
    }

    /// The current PLL multiplier, in [2..16].
    pub fn get_pll_multiplier(&self) -> (r: u8)
        ensures
            r == spec_pll_multiplier(self.cfgr.0),
            2 <= r <= 16,
    {
        self.cfgr.get_pll_multiplier()
    }

    /// Set the PLL multiplier; it must lie in [2..16].
    pub fn set_pll_multiplier(&mut self, mul: u8)
        requires
            2 <= mul <= 16,
        ensures
            *final(self) == (RawRCC {
                cfgr: CFGR(
                    (old(self).cfgr.0 & !crate::rcc::defs::CFGR_PLLMUL_MASK) | (((mul - 2) as u32)
                        << crate::rcc::defs::CFGR_PLLMUL_SHIFT),
                ),
                ..*old(self)
            }),
    {
        self.cfgr.set_pll_multiplier(mul);
    }

    /// The current PLL predivision factor, in [1..16].
    pub fn get_pll_prediv_factor(&self) -> (r: u8)
        ensures
            r == spec_pll_prediv(self.cfgr2.0),
            1 <= r <= 16,
    {
        self.cfgr2.get_pll_prediv_factor()
    }

    /// Set the PLL predivision factor; it must lie in [1..16].
    pub fn set_pll_prediv_factor(&mut self, factor: u8)
        requires
            1 <= factor <= 16,
        ensures
            *final(self) == (RawRCC {
                cfgr2: CFGR2(
                    (old(self).cfgr2.0 & !crate::rcc::defs::CFGR2_PREDIV_MASK) | ((factor
                        - 1) as u32),
                ),
                ..*old(self)
            }),
    {
        self.cfgr2.set_pll_prediv_factor(factor);
    }

    /// The rate of the current system clock.
    pub fn get_system_clock_rate(&self) -> (r: u32)
        ensures
            r == self.clock_rate,
    {
        self.clock_rate
    }

    /// Recompute the derived system clock rate from the clock
    /// configuration registers.
    pub fn update_system_clock_rate(&mut self)
        ensures
            *final(self) == (RawRCC { clock_rate: final(self).clock_rate, ..*old(self) }),
            final(self).clock_rate == spec_clock_rate_of(old(self).cfgr.0, old(self).cfgr2.0),
    {
        let rate: u32 = match self.cfgr.get_system_clock_source() {
            Clock::HSI => HSI_VALUE,
            Clock::HSE => HSE_VALUE,
            Clock::HSI48 => HSI48_VALUE,
            Clock::PLL => {
                let multiplier = self.cfgr.get_pll_multiplier() as u32;
                let source = self.cfgr.get_pll_source();
                let prediv_factor = self.cfgr2.get_pll_prediv_factor() as u32;

                proof {
                    assert((HSI48_VALUE / prediv_factor) * multiplier <= 768_000_000)
                        by (nonlinear_arith)
                        requires
                            1 <= prediv_factor,
                            multiplier <= 16,
                    ;
                    assert((HSE_VALUE / prediv_factor) * multiplier <= 128_000_000)
                        by (nonlinear_arith)
                        requires
                            1 <= prediv_factor,
                            multiplier <= 16,
                    ;
                    assert((HSI_VALUE / 2) * multiplier <= 64_000_000) by (nonlinear_arith)
                        requires
                            multiplier <= 16,
                    ;
                }
                match source {
                    Clock::HSE => (HSE_VALUE / prediv_factor) * multiplier,
                    Clock::HSI48 => (HSI48_VALUE / prediv_factor) * multiplier,
                    Clock::HSI => (HSI_VALUE / 2) * multiplier,
                    _ => 0,
                }
            },
            Clock::HSI14 => 0,
        };
        self.clock_rate = rate;
    }

    /// Enable a peripheral's clock through whichever register serves it.
    pub fn enable_peripheral(&mut self, peripheral: Peripheral)
        ensures
            spec_serves_ahb(peripheral) ==> *final(self) == (RawRCC {
                ahbenr: AHBENR(
                    (old(self).ahbenr.0 & !peripheral.spec_mask()) | peripheral.spec_mask(),
                ),
                ..*old(self)
            }),
            spec_serves_apb1(peripheral) ==> *final(self) == (RawRCC {
                apbenr1: APBENR1(
                    (old(self).apbenr1.0 & !peripheral.spec_mask()) | peripheral.spec_mask(),
                ),
                ..*old(self)
            }),
            spec_serves_apb2(peripheral) ==> *final(self) == (RawRCC {
                apbenr2: APBENR2(
                    (old(self).apbenr2.0 & !peripheral.spec_mask()) | peripheral.spec_mask(),
                ),
                ..*old(self)
            }),
    {
        proof {
            lemma_peripheral_served(peripheral);
        }
        if self.ahbenr.serves_peripheral(peripheral) {
            self.ahbenr.set_enable(true, peripheral);
        } else if self.apbenr1.serves_peripheral(peripheral) {
            self.apbenr1.set_enable(true, peripheral);
        } else {
            self.apbenr2.set_enable(true, peripheral);
        }
    }

    /// Turn off the clock for the specified peripheral.
    pub fn disable_peripheral(&mut self, peripheral: Peripheral)
        ensures
            spec_serves_ahb(peripheral) ==> *final(self) == (RawRCC {
                ahbenr: AHBENR(old(self).ahbenr.0 & !peripheral.spec_mask()),
                ..*old(self)
            }),
            spec_serves_apb1(peripheral) ==> *final(self) == (RawRCC {
                apbenr1: APBENR1(old(self).apbenr1.0 & !peripheral.spec_mask()),
                ..*old(self)
            }),
            spec_serves_apb2(peripheral) ==> *final(self) == (RawRCC {
                apbenr2: APBENR2(old(self).apbenr2.0 & !peripheral.spec_mask()),
                ..*old(self)
            }),
    {
        proof {
            lemma_peripheral_served(peripheral);
        }
        if self.ahbenr.serves_peripheral(peripheral) {
            self.ahbenr.set_enable(false, peripheral);
        } else if self.apbenr1.serves_peripheral(peripheral) {
            self.apbenr1.set_enable(false, peripheral);
        } else {
            self.apbenr2.set_enable(false, peripheral);
        }
    }

    /// Whether the clock is on for the specified peripheral.
    pub fn peripheral_is_enabled(&self, peripheral: Peripheral) -> (r: bool)
        ensures
            spec_serves_ahb(peripheral) ==> r == (self.ahbenr.0 & peripheral.spec_mask() != 0),
            spec_serves_apb1(peripheral) ==> r == (self.apbenr1.0 & peripheral.spec_mask() != 0),
            spec_serves_apb2(peripheral) ==> r == (self.apbenr2.0 & peripheral.spec_mask() != 0),
    {
        proof {
            lemma_peripheral_served(peripheral);
        }
        if self.ahbenr.serves_peripheral(peripheral) {
            self.ahbenr.get_enable(peripheral)
        } else if self.apbenr1.serves_peripheral(peripheral) {
            self.apbenr1.get_enable(peripheral)
        } else {
            self.apbenr2.get_enable(peripheral)
        }
    }
}

} // verus!
