//! Bump allocator over the packet-memory region.
//!
//! The allocator hands each endpoint a buffer address and then moves its
//! position pointer forward by the fixed size of the requested class; nothing
//! is ever freed.  The layout of endpoint buffers is decided once, at
//! controller construction, and the monotonic bump discipline is what keeps
//! the buffers from aliasing.

use vstd::prelude::*;
use crate::usb::defs::{BDT_SIZE, USB_PMA_SIZE};

verus! {

/// The buffer classes an endpoint may request, each with a fixed size.
#[derive(Copy, Clone, Debug, PartialEq, Eq, Structural)]
pub enum USBSize {
    Control,
    Interrupt,
    Bulk,
}

/// The fixed size in bytes of a buffer class.
pub open spec fn spec_usb_size(s: USBSize) -> u32 {
    match s {
        USBSize::Control => 32,
        USBSize::Interrupt => 8,
        USBSize::Bulk => 64,
    }
}

/// Bump allocator state: a base address inside packet memory and the offset
/// of the next free byte.  The offset only ever grows.
#[derive(Copy, Clone, Debug)]
pub struct SRAM {
    pub base_addr: u32,
    pub position_pointer: u32,
}

impl SRAM {
    /// Everything the allocator may hand out stays inside packet memory.
    pub open spec fn wf(&self) -> bool {
        self.base_addr + self.position_pointer <= USB_PMA_SIZE
    }

    /// The address the next allocation returns.
    pub open spec fn spec_next_addr(&self) -> u32 {
        (self.base_addr + self.position_pointer) as u32
    }

    /// A fresh allocator over the region starting at `base_addr`.
    pub fn new(base_addr: u32) -> (r: SRAM)
        requires
            base_addr <= USB_PMA_SIZE,
        ensures
            r.wf(),
            r.base_addr == base_addr,
            r.position_pointer == 0,
    {
        SRAM { base_addr, position_pointer: 0 }
    }

    /// Reserve room for the buffer descriptor table and return its address.
    pub fn allocate_btable_space(&mut self) -> (r: u32)
        requires
            old(self).wf(),
            old(self).spec_next_addr() + 8 * BDT_SIZE <= USB_PMA_SIZE,
        ensures
            final(self).wf(),
            r == old(self).spec_next_addr(),
            final(self).base_addr == old(self).base_addr,
            final(self).position_pointer == old(self).position_pointer + 8 * BDT_SIZE,
    {
        let current_pointer = self.base_addr + self.position_pointer;
        self.position_pointer += 8 * BDT_SIZE;

        current_pointer
    }

    /// Return the current address, then push the position pointer forward by
    /// the fixed size of the requested class.  This supplies endpoints with
    /// buffer space; there is no way to give it back.
    pub fn allocate_usb_space(&mut self, usb_size: USBSize) -> (r: u32)
        requires
            old(self).wf(),
            old(self).spec_next_addr() + spec_usb_size(usb_size) <= USB_PMA_SIZE,
        ensures
            final(self).wf(),
            r == old(self).spec_next_addr(),
            final(self).base_addr == old(self).base_addr,
            final(self).position_pointer == old(self).position_pointer + spec_usb_size(usb_size),
    {
        let current_pointer = self.base_addr + self.position_pointer;
        self.position_pointer += self.get_size(usb_size);

        current_pointer
    }

    /// The fixed byte size of each buffer class.
    fn get_size(&self, usb_size: USBSize) -> (r: u32)
        ensures
            r == spec_usb_size(usb_size),
    {
        match usb_size {
            USBSize::Control => 32,
            USBSize::Interrupt => 8,
            USBSize::Bulk => 64,
        }
    }
}

/// Allocator monotonicity: over any two successive allocations, the second
/// address lies at least one full buffer beyond the first, so no address is
/// ever handed out twice.
pub proof fn lemma_allocate_monotonic(s: SRAM, c1: USBSize, c2: USBSize)
    requires
        s.wf(),
        s.spec_next_addr() + spec_usb_size(c1) + spec_usb_size(c2) <= USB_PMA_SIZE,
    ensures
        ({
            let first = s.spec_next_addr();
            let after_first = SRAM {
                base_addr: s.base_addr,
                position_pointer: (s.position_pointer + spec_usb_size(c1)) as u32,
            };
            let second = after_first.spec_next_addr();
            &&& second == first + spec_usb_size(c1)
            &&& second > first
        }),
{
}

} // verus!
