//! Interrupt status register: records which events raised the USB interrupt
//! so the service routine can see which endpoint, or which device-level
//! cause, wants attention.

use vstd::prelude::*;
use crate::usb::defs::{
    USB_ISTR_CTR, USB_ISTR_RESET, USB_ISTR_SUSP, USB_ISTR_WKUP, USB_ISTR_EP_ID_MASK,
    ISTR_RESET_FLAG, ISTR_SUSPEND_FLAG, ISTR_WAKEUP_FLAG,
};
use crate::usb::UsbError;

verus! {

/// The ISTR register value.
#[derive(Copy, Clone, Debug)]
pub struct ISTR(pub u32);

/// True when the register reports a completed endpoint transfer.
pub open spec fn istr_is_ep(v: u32) -> bool {
    (v >> USB_ISTR_CTR) & 1 == 1
}

/// The endpoint slot a completed-transfer report addresses.
pub open spec fn istr_ep_id(v: u32) -> u32 {
    v & USB_ISTR_EP_ID_MASK
}

/// True when the register reports a bus reset (and no endpoint transfer).
pub open spec fn istr_is_reset(v: u32) -> bool {
    !istr_is_ep(v) && (v >> USB_ISTR_RESET) & 1 == 1
}

/// True when the register reports a suspend condition.
pub open spec fn istr_is_suspend(v: u32) -> bool {
    !istr_is_ep(v) && !istr_is_reset(v) && (v >> USB_ISTR_SUSP) & 1 == 1
}

/// True when the register reports a wakeup condition.
pub open spec fn istr_is_wakeup(v: u32) -> bool {
    !istr_is_ep(v) && !istr_is_reset(v) && !istr_is_suspend(v) && (v >> USB_ISTR_WKUP) & 1 == 1
}

/// True when the register holds no cause the driver knows.
pub open spec fn istr_is_unknown(v: u32) -> bool {
    !istr_is_ep(v) && !istr_is_reset(v) && !istr_is_suspend(v) && !istr_is_wakeup(v)
}

/// What `get_interrupt` decodes a register value to: an endpoint slot, or
/// one of the three device-level cause flags.
pub open spec fn spec_istr_decode(v: u32) -> usize {
    if istr_is_ep(v) {
        istr_ep_id(v) as usize
    } else if istr_is_reset(v) {
        ISTR_RESET_FLAG
    } else if istr_is_suspend(v) {
        ISTR_SUSPEND_FLAG
    } else {
        ISTR_WAKEUP_FLAG
    }
}

impl ISTR {
    /// Store a whole register value; this is how the hardware side reports
    /// its interrupt causes to the model.
    pub fn set(&mut self, port: u32)
        ensures
            final(self).0 == port,
    {
        self.0 = port;
    }

    /// The current register value.
    pub fn get(&self) -> (r: u32)
        ensures
            r == self.0,
    {
        self.0
    }

    /// Read and clear the pending interrupt cause.
    ///
    /// A completed endpoint transfer decodes to that endpoint's slot index;
    /// otherwise a reset, suspend or wakeup condition decodes to its flag.  A
    /// register with no recognised cause is a configuration fault and is
    /// reported as an error.  Either way the register is cleared, so the
    /// cause is consumed exactly once.
    pub fn get_interrupt(&mut self) -> (r: Result<usize, UsbError>)
        ensures
            final(self).0 == 0,
            r is Ok <==> !istr_is_unknown(old(self).0),
            r is Ok ==> r->Ok_0 == spec_istr_decode(old(self).0),
            r is Err ==> r->Err_0 is UnknownInterrupt,
    {
        let temp = self.0;
        self.0 = 0;

        if (temp >> USB_ISTR_CTR) & 1 == 1 {
            return Ok((temp & USB_ISTR_EP_ID_MASK) as usize);
        }
        if (temp >> USB_ISTR_RESET) & 1 == 1 {
            return Ok(ISTR_RESET_FLAG);
        }
        if (temp >> USB_ISTR_SUSP) & 1 == 1 {
            return Ok(ISTR_SUSPEND_FLAG);
        }
        if (temp >> USB_ISTR_WKUP) & 1 == 1 {
            return Ok(ISTR_WAKEUP_FLAG);
        }
        Err(UsbError::UnknownInterrupt)
    }

    /// Clear every pending cause.
    pub fn clear(&mut self)
        ensures
            final(self).0 == 0,
    {
        self.0 = 0;
    }
}

} // verus!
