//! Control register of the USB peripheral: reset, power, suspend and
//! interrupt-mask bits governing the device as a whole.

use vstd::prelude::*;
use crate::usb::defs::{
    USB_CNTR_FRES, USB_CNTR_PDWN, USB_CNTR_LP_MODE, USB_CNTR_FSUSP, USB_CNTR_RESETM,
    USB_CNTR_SUSPM, USB_CNTR_WKUPM, USB_CNTR_CTRM,
};

verus! {

/// The CNTR register value.
#[derive(Copy, Clone, Debug)]
pub struct CNTR(pub u32);

impl CNTR {
    /// Store a whole register value.
    pub fn set(&mut self, port: u32)
        ensures
            final(self).0 == port,
    {
        self.0 = port;
    }

    /// The current register value.
    pub fn get(&self) -> (r: u32)
        ensures
            r == self.0,
    {
        self.0
    }

    /// Clear the whole register.
    pub fn clear(&mut self)
        ensures
            final(self).0 == 0,
    {
        self.0 = 0;
    }

    /// Unmask the interrupt causes the driver reacts to: correct transfer,
    /// reset, suspend and wakeup.
    pub fn enable_interrupts(&mut self)
        ensures
            final(self).0 == old(self).0 | (USB_CNTR_CTRM | USB_CNTR_RESETM | USB_CNTR_SUSPM
                | USB_CNTR_WKUPM),
    {
        self.0 |= USB_CNTR_CTRM | USB_CNTR_RESETM | USB_CNTR_SUSPM | USB_CNTR_WKUPM;
    }

    /// Force a reset of the USB peripheral, exactly like a RESET signalling
    /// on the bus; the peripheral is held in reset until the bit is cleared.
    pub fn force_reset(&mut self)
        ensures
            final(self).0 == old(self).0 | USB_CNTR_FRES,
    {
        self.0 |= USB_CNTR_FRES;
    }

    /// Release the forced reset.
    pub fn clear_reset(&mut self)
        ensures
            final(self).0 == old(self).0 & !USB_CNTR_FRES,
    {
        self.0 &= !USB_CNTR_FRES;
    }

    /// Pulse the forced-reset bit: assert it, then release it, leaving the
    /// controller in a known state.
    pub fn reset_controller(&mut self)
        ensures
            final(self).0 == (old(self).0 | USB_CNTR_FRES) & !USB_CNTR_FRES,
    {
        self.force_reset();
        self.clear_reset();
    }

    /// Enter powerdown mode: the analog parts are disconnected and the
    /// peripheral cannot be used.
    pub fn enable_powerdown_mode(&mut self)
        ensures
            final(self).0 == old(self).0 | USB_CNTR_PDWN,
    {
        self.0 |= USB_CNTR_PDWN;
    }

    /// Exit powerdown mode.
    pub fn disable_powerdown_mode(&mut self)
        ensures
            final(self).0 == old(self).0 & !USB_CNTR_PDWN,
    {
        self.0 &= !USB_CNTR_PDWN;
    }

    /// Enter low-power mode.
    pub fn enable_lp_mode(&mut self)
        ensures
            final(self).0 == old(self).0 | USB_CNTR_LP_MODE,
    {
        self.0 |= USB_CNTR_LP_MODE;
    }

    /// Exit low-power mode.
    pub fn disable_lp_mode(&mut self)
        ensures
            final(self).0 == old(self).0 & !USB_CNTR_LP_MODE,
    {
        self.0 &= !USB_CNTR_LP_MODE;
    }

    /// Software sets this bit when the suspend interrupt is received, which
    /// is issued when no traffic reaches the peripheral for 3 ms.
    pub fn force_suspend(&mut self)
        ensures
            final(self).0 == old(self).0 | USB_CNTR_FSUSP,
    {
        self.0 |= USB_CNTR_FSUSP;
    }

    /// Suspend the device.
    pub fn suspend_device(&mut self)
        ensures
            final(self).0 == old(self).0 | USB_CNTR_FSUSP,
    {
        self.force_suspend();
    }

    /// Enter low-power mode while suspended.
    pub fn low_power_mode(&mut self)
        ensures
            final(self).0 == old(self).0 | USB_CNTR_LP_MODE,
    {
        self.enable_lp_mode();
    }

    /// Leave suspend: clear the suspend and low-power bits.
    pub fn resume_device(&mut self)
        ensures
            final(self).0 == old(self).0 & !USB_CNTR_FSUSP & !USB_CNTR_LP_MODE,
    {
        self.0 &= !USB_CNTR_FSUSP;
        self.0 &= !USB_CNTR_LP_MODE;
    }

    /// Turn off the device entirely: powerdown and low-power.
    pub fn turn_off_device(&mut self)
        ensures
            final(self).0 == old(self).0 | USB_CNTR_PDWN | USB_CNTR_LP_MODE,
    {
        self.enable_powerdown_mode();
        self.enable_lp_mode();
    }
}

} // verus!
