//! Battery charging detector register; the driver only uses its DPPU bit, the
//! pull-up that signals device presence to the host.

use vstd::prelude::*;
use crate::usb::defs::USB_BCDR_DPPU;

verus! {

/// The BCDR register value.
#[derive(Copy, Clone, Debug)]
pub struct BCDR(pub u32);

impl BCDR {
    /// Store a whole register value.
    pub fn set(&mut self, port: u32)
        ensures
            final(self).0 == port,
    {
        self.0 = port;
    }

    /// The current register value.
    pub fn get(&self) -> (r: u32)
        ensures
            r == self.0,
    {
        self.0
    }

    /// Drop the DP pull-up, signalling disconnect to the host.
    pub fn disable_usb_pullup(&mut self)
        ensures
            final(self).0 == old(self).0 & !(1u32 << USB_BCDR_DPPU),
    {
        self.0 &= !(1u32 << USB_BCDR_DPPU);
    }

    /// Raise the DP pull-up, signalling device presence to the host.
    pub fn enable_usb_pullup(&mut self)
        ensures
            final(self).0 == old(self).0 | (1u32 << USB_BCDR_DPPU),
    {
        self.0 |= 1u32 << USB_BCDR_DPPU;
    }
}

} // verus!
