//! The nested vectored interrupt controller: enabling, disabling,
//! prioritising and marking pending the hardware interrupt lines.

use vstd::prelude::*;

pub mod defs;
pub mod enable;
pub mod pending;
pub mod priority;

pub use self::priority::Priority;

use crate::interrupt::enable::{ISER, ICER};
use crate::interrupt::pending::{ISPR, ICPR};
use crate::interrupt::priority::IPR;
use crate::interrupt::defs::IPR_PRIORITY_FIELD_MASK;
use crate::field::Field;

verus! {

/// The hardware interrupt lines of the device, in vector order.
#[allow(missing_docs)]
#[derive(Copy, Clone, Debug, PartialEq, Eq, Structural)]
pub enum Hardware {
    Wwdg,
    Pvdvddio2,
    Rtc,
    Flash,
    Rcccrs,
    Exti01,
    Exti23,
    Exti415,
    Tsc,
    Dmach1,
    Dmach23,
    Dmach4Plus,
    Adccomp,
    Tim1Brkup,
    Tim1cc,
    Tim2,
    Tim3,
    Tim6,
    Tim7,
    Tim14,
    Tim15,
    Tim16,
    Tim17,
    I2C1,
    I2C2,
    Spi1,
    Spi2,
    Usart1,
    Usart2,
    Usart3Plus,
    Ceccan,
    Usb,
}

impl Hardware {
    /// The interrupt line's number in the vector table.
    pub open spec fn spec_line(&self) -> u8 {
        match *self {
            Hardware::Wwdg => 0,
            Hardware::Pvdvddio2 => 1,
            Hardware::Rtc => 2,
            Hardware::Flash => 3,
            Hardware::Rcccrs => 4,
            Hardware::Exti01 => 5,
            Hardware::Exti23 => 6,
            Hardware::Exti415 => 7,
            Hardware::Tsc => 8,
            Hardware::Dmach1 => 9,
            Hardware::Dmach23 => 10,
            Hardware::Dmach4Plus => 11,
            Hardware::Adccomp => 12,
            Hardware::Tim1Brkup => 13,
            Hardware::Tim1cc => 14,
            Hardware::Tim2 => 15,
            Hardware::Tim3 => 16,
            Hardware::Tim6 => 17,
            Hardware::Tim7 => 18,
            Hardware::Tim14 => 19,
            Hardware::Tim15 => 20,
            Hardware::Tim16 => 21,
            Hardware::Tim17 => 22,
            Hardware::I2C1 => 23,
            Hardware::I2C2 => 24,
            Hardware::Spi1 => 25,
            Hardware::Spi2 => 26,
            Hardware::Usart1 => 27,
            Hardware::Usart2 => 28,
            Hardware::Usart3Plus => 29,
            Hardware::Ceccan => 30,
            Hardware::Usb => 31,
        }
    }

    /// The interrupt line's number in the vector table.
    pub fn line(&self) -> (r: u8)
        ensures
            r == self.spec_line(),
            r < 32,
    {
        match *self {
            Hardware::Wwdg => 0,
            Hardware::Pvdvddio2 => 1,
            Hardware::Rtc => 2,
            Hardware::Flash => 3,
            Hardware::Rcccrs => 4,
            Hardware::Exti01 => 5,
            Hardware::Exti23 => 6,
            Hardware::Exti415 => 7,
            Hardware::Tsc => 8,
            Hardware::Dmach1 => 9,
            Hardware::Dmach23 => 10,
            Hardware::Dmach4Plus => 11,
            Hardware::Adccomp => 12,
            Hardware::Tim1Brkup => 13,
            Hardware::Tim1cc => 14,
            Hardware::Tim2 => 15,
            Hardware::Tim3 => 16,
            Hardware::Tim6 => 17,
            Hardware::Tim7 => 18,
            Hardware::Tim14 => 19,
            Hardware::Tim15 => 20,
            Hardware::Tim16 => 21,
            Hardware::Tim17 => 22,
            Hardware::I2C1 => 23,
            Hardware::I2C2 => 24,
            Hardware::Spi1 => 25,
            Hardware::Spi2 => 26,
            Hardware::Usart1 => 27,
            Hardware::Usart2 => 28,
            Hardware::Usart3Plus => 29,
            Hardware::Ceccan => 30,
            Hardware::Usb => 31,
        }
    }
}

/// The interrupt controller register block: enable, pending and priority
/// registers for the 32 device interrupt lines.
pub struct RawNvic {
    pub iser: ISER,
    pub icer: ICER,
    pub ispr: ISPR,
    pub icpr: ICPR,
    pub ipr: Vec<IPR>,
}

/// The controller in its reset state.
pub fn nvic() -> (r: RawNvic)
    ensures
        r.wf(),
        r.iser.0 == 0,
        r.icer.0 == 0,
        r.ispr.0 == 0,
        r.icpr.0 == 0,
        forall|i: int| 0 <= i < 8 ==> (#[trigger] r.ipr@[i]).0 == 0,
{
    RawNvic::new()
}

impl RawNvic {
    /// Eight priority registers cover the 32 lines, four fields each.
    pub open spec fn wf(&self) -> bool {
        self.ipr@.len() == 8
    }

    /// The controller in its reset state.
    pub fn new() -> (r: RawNvic)
        ensures
            r.wf(),
            r.iser.0 == 0,
            r.icer.0 == 0,
            r.ispr.0 == 0,
            r.icpr.0 == 0,
            forall|i: int| 0 <= i < 8 ==> (#[trigger] r.ipr@[i]).0 == 0,
    {
        let ipr: Vec<IPR> = vec![IPR(0); 8];
        RawNvic { iser: ISER(0), icer: ICER(0), ispr: ISPR(0), icpr: ICPR(0), ipr }
    }

    /// Enable the line's interrupt.
    pub fn enable_interrupt(&mut self, hardware: Hardware)
        requires
            old(self).wf(),
        ensures
            final(self).wf(),
            final(self).iser.0 == old(self).iser.0 | (1u32 << hardware.spec_line() as u32),
            final(self).icer == old(self).icer,
            final(self).ispr == old(self).ispr,
            final(self).icpr == old(self).icpr,
            final(self).ipr@ == old(self).ipr@,
    {
        self.iser.enable_interrupt(hardware);
    }

    /// Disable the line's interrupt.
    pub fn disable_interrupt(&mut self, hardware: Hardware)
        requires
            old(self).wf(),
        ensures
            final(self).wf(),
            final(self).icer.0 == old(self).icer.0 | (1u32 << hardware.spec_line() as u32),
            final(self).iser == old(self).iser,
            final(self).ispr == old(self).ispr,
            final(self).icpr == old(self).icpr,
            final(self).ipr@ == old(self).ipr@,
    {
        self.icer.disable_interrupt(hardware);
    }

    /// Whether the line's interrupt is enabled.
    pub fn interrupt_is_enabled(&self, hardware: Hardware) -> (r: bool)
        ensures
            r == (self.iser.0 & (1u32 << hardware.spec_line() as u32) != 0),
    {
        self.iser.interrupt_is_enabled(hardware)
    }

    /// Mark the line's interrupt pending.
    pub fn set_pending(&mut self, hardware: Hardware)
        requires
            old(self).wf(),
        ensures
            final(self).wf(),
            final(self).ispr.0 == old(self).ispr.0 | (1u32 << hardware.spec_line() as u32),
            final(self).iser == old(self).iser,
            final(self).icer == old(self).icer,
            final(self).icpr == old(self).icpr,
            final(self).ipr@ == old(self).ipr@,
    {
        self.ispr.set_pending(hardware);
    }

    /// Clear the line's pending flag.
    pub fn clear_pending(&mut self, hardware: Hardware)
        requires
            old(self).wf(),
        ensures
            final(self).wf(),
            final(self).icpr.0 == old(self).icpr.0 | (1u32 << hardware.spec_line() as u32),
            final(self).iser == old(self).iser,
            final(self).icer == old(self).icer,
            final(self).ispr == old(self).ispr,
            final(self).ipr@ == old(self).ipr@,
    {
        self.icpr.clear_pending(hardware);
    }

    /// Whether the line's interrupt is pending.
    pub fn interrupt_is_pending(&self, hardware: Hardware) -> (r: bool)
        ensures
            r == (self.ispr.0 & (1u32 << hardware.spec_line() as u32) != 0),
    {
        self.ispr.interrupt_is_pending(hardware)
    }

    /// Set the line's priority: the line's field sits in priority register
    /// `line / 4`, at byte offset `line % 4`.
    pub fn set_priority(&mut self, priority: Priority, hardware: Hardware)
        requires
            old(self).wf(),
        ensures
            final(self).wf(),
            ({
                let line = hardware.spec_line() as int;
                let off = (line % 4) as u8;
                final(self).ipr@ == old(self).ipr@.update(line / 4, IPR(
                    (old(self).ipr@[line / 4].0 & !(IPR_PRIORITY_FIELD_MASK << ((off
                        * 8) as u32))) | (priority.spec_mask() << ((off * 8) as u32)),
                ))
            }),
            final(self).iser == old(self).iser,
            final(self).icer == old(self).icer,
            final(self).ispr == old(self).ispr,
            final(self).icpr == old(self).icpr,
    {
        let interrupt = hardware.line();
        let ipr_offset = interrupt / 4;
        let priority_offset = interrupt % 4;
        let mut entry = self.ipr[ipr_offset as usize];
        entry.set_priority(priority, priority_offset);
        self.ipr[ipr_offset as usize] = entry;
    }

    /// Read the line's priority.
    pub fn get_priority(&self, hardware: Hardware) -> (r: Priority)
        requires
            self.wf(),
        ensures
            ({
                let line = hardware.spec_line() as int;
                let off = (line % 4) as u8;
                r == Priority::spec_from_mask(
                    (self.ipr@[line / 4].0 & (IPR_PRIORITY_FIELD_MASK << ((off * 8) as u32))) >> ((
                    off * 8) as u32),
                )
            }),
    {
        let interrupt = hardware.line();
        let ipr_offset = interrupt / 4;
        let priority_offset = interrupt % 4;
        self.ipr[ipr_offset as usize].get_priority(priority_offset)
    }
}

} // verus!
