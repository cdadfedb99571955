//! The dedicated packet-memory region: a word-addressable arena that stands
//! in for the on-chip SRAM the USB engine and the driver share.  Endpoint
//! buffers are byte ranges inside it, and every access is bounds-checked
//! against the region.

use vstd::prelude::*;
use crate::usb::defs::USB_PMA_WORDS;

verus! {

/// Packet memory, held as 32-bit words the way the hardware organises it.
pub struct PacketMemory {
    mem: Vec<u32>,
}

/// The byte a word holds at byte offset `k` in [0, 4), little-endian.
pub open spec fn byte_of_word(w: u32, k: int) -> u8 {
    ((w >> ((k * 8) as u32)) & 0xff) as u8
}

impl PacketMemory {
    /// The region is exactly `USB_PMA_WORDS` words long.
    pub open spec fn wf(&self) -> bool {
        self.words().len() == USB_PMA_WORDS
    }

    /// The words of the region.
    pub closed spec fn words(&self) -> Seq<u32> {
        self.mem@
    }

    /// The byte stored at a byte address of the region.
    pub open spec fn spec_byte(&self, addr: int) -> u8 {
        byte_of_word(self.words()[addr / 4], addr % 4)
    }

    /// A zeroed packet-memory region.
    pub fn new() -> (r: PacketMemory)
        ensures
            r.wf(),
            forall|i: int| 0 <= i < USB_PMA_WORDS ==> r.words()[i] == 0u32,
    {
        let mem: Vec<u32> = vec![0u32; USB_PMA_WORDS];
        PacketMemory { mem }
    }

    /// Read the word at a word index.
    pub fn read_word(&self, idx: usize) -> (r: u32)
        requires
            self.wf(),
            idx < USB_PMA_WORDS,
        ensures
            r == self.words()[idx as int],
    {
        self.mem[idx]
    }

    /// Read the byte at a byte address of the region.
    pub fn read_byte(&self, addr: u32) -> (r: u8)
        requires
            self.wf(),
            addr < 4 * USB_PMA_WORDS,
        ensures
            r == self.spec_byte(addr as int),
    {
        let w = self.mem[(addr / 4) as usize];
        let sh: u32 = (addr % 4) * 8;
        ((w >> sh) & 0xff) as u8
    }

    /// Replace the word at a word index.
    pub fn write_word(&mut self, idx: usize, val: u32)
        requires
            old(self).wf(),
            idx < USB_PMA_WORDS,
        ensures
            final(self).wf(),
            final(self).words() == old(self).words().update(idx as int, val),
    {
        self.mem[idx] = val;
    }
}

} // verus!
