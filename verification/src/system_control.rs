//! The system control block; the scheduler uses its interrupt control and
//! state register to raise and drop the PendSV request.

use vstd::prelude::*;

verus! {

/// The PendSV set bit of the interrupt control and state register.  On the
/// hardware a write-1 to this bit raises the request and a write-1 to the
/// neighbouring clear bit drops it; reading the bit reports the pending
/// state, which is what this model stores.
pub const ICSR_PENDSVSET: u32 = 0b1 << 28;

/// The interrupt control and state register.
#[derive(Copy, Clone, Debug)]
pub struct ICSR(pub u32);

impl ICSR {
    /// Raise the PendSV request.
    pub fn set_pend_sv(&mut self)
        ensures
            final(self).0 == old(self).0 | ICSR_PENDSVSET,
    {
        self.0 |= ICSR_PENDSVSET;
    }

    /// Drop the PendSV request.
    pub fn clear_pend_sv(&mut self)
        ensures
            final(self).0 == old(self).0 & !ICSR_PENDSVSET,
    {
        self.0 &= !ICSR_PENDSVSET;
    }
}

/// The system control block register file.
#[derive(Copy, Clone, Debug)]
pub struct RawSCB {
    pub cpuid: u32,
    pub icsr: ICSR,
    pub aircr: u32,
    pub scr: u32,
    pub ccr: u32,
    pub shpr2: u32,
    pub shpr3: u32,
}

/// The block in its reset state.
pub fn scb() -> (r: RawSCB)
    ensures
        r.icsr.0 == 0,
{
    RawSCB { cpuid: 0, icsr: ICSR(0), aircr: 0, scr: 0, ccr: 0, shpr2: 0, shpr3: 0 }
}

impl RawSCB {
    /// Raise the PendSV request, asking for a context switch.
    pub fn set_pend_sv(&mut self)
        ensures
            *final(self) == (RawSCB {
                icsr: ICSR(old(self).icsr.0 | ICSR_PENDSVSET),
                ..*old(self)
            }),
    {
        self.icsr.set_pend_sv();
    }

    /// Drop the PendSV request.
    pub fn clear_pend_sv(&mut self)
        ensures
            *final(self) == (RawSCB {
                icsr: ICSR(old(self).icsr.0 & !ICSR_PENDSVSET),
                ..*old(self)
            }),
    {
        self.icsr.clear_pend_sv();
    }
}

} // verus!
