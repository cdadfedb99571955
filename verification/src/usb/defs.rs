//! Bit definitions for the USB full-speed device controller registers.

use vstd::prelude::*;

verus! {

// ------------------------------------
// Endpoint layout
// ------------------------------------
/// Number of endpoint slots the controller manages.
pub const EP_NUM: usize = 4;

/// Slot of the control endpoint.
pub const EP0: usize = 0;

/// Slot of the interrupt endpoint.
pub const INT: usize = 1;

/// Slot of the bulk OUT (host to device) endpoint.
pub const OUT: usize = 2;

/// Slot of the bulk IN (device to host) endpoint.
pub const IN: usize = 3;

/// Size in bytes of the shared software-side transmit/receive buffers.
pub const BUF_SIZE: usize = 64;

/// The largest packet a single transfer may move.
pub const MAX_BUF_SIZE: u32 = 64;

// ------------------------------------
// EPnR bit positions
// ------------------------------------
pub const USB_EPR_EA: u32 = 0;
pub const USB_EPR_STAT_TX: u32 = 4;
pub const USB_EPR_DTOG_TX: u32 = 6;
pub const USB_EPR_CTR_TX: u32 = 7;
pub const USB_EPR_EP_KIND: u32 = 8;
pub const USB_EPR_EP_TYPE: u32 = 9;
pub const USB_EPR_SETUP: u32 = 11;
pub const USB_EPR_STAT_RX: u32 = 12;
pub const USB_EPR_DTOG_RX: u32 = 14;
pub const USB_EPR_CTR_RX: u32 = 15;

pub const USB_EPR_STAT_TX_MASK: u32 = 3;
pub const USB_EPR_STAT_RX_MASK: u32 = 3;
pub const USB_EPR_EP_TYPE_MASK: u32 = 3;
pub const USB_EPR_EA_MASK: u32 = 0xf;

// How a write to EPnR lands, field class by field class: read-write fields
// are taken from the written word, toggle fields flip where a 1 is written,
// rc_w0 fields keep a bit only where a 1 is written, and SETUP is read-only.
pub const USB_EPR_RW_MASK: u32 = (USB_EPR_EA_MASK << USB_EPR_EA) | (1 << USB_EPR_EP_KIND) | (
    USB_EPR_EP_TYPE_MASK << USB_EPR_EP_TYPE);

pub const USB_EPR_TOGGLE_MASK: u32 = (USB_EPR_STAT_TX_MASK << USB_EPR_STAT_TX) | (1
    << USB_EPR_DTOG_TX) | (USB_EPR_STAT_RX_MASK << USB_EPR_STAT_RX) | (1 << USB_EPR_DTOG_RX);

pub const USB_EPR_RC_W0_MASK: u32 = (1 << USB_EPR_CTR_TX) | (1 << USB_EPR_CTR_RX);

pub const USB_EPR_RO_MASK: u32 = 1 << USB_EPR_SETUP;

/// The whole 16-bit register.
pub const USB_EPR_REG_MASK: u32 = 0xffff;

/// The fields a read-modify-write must carry over unchanged: type, kind and
/// address.
pub const USB_EPR_PRESERVE_MASK: u32 = (USB_EPR_EP_TYPE_MASK << USB_EPR_EP_TYPE) | (1
    << USB_EPR_EP_KIND) | (USB_EPR_EA_MASK << USB_EPR_EA);

// ------------------------------------
// Endpoint address codes, one per role
// ------------------------------------
pub const USB_EPR_CONTROL: u32 = 0;
pub const USB_EPR_INT: u32 = 1;
pub const USB_EPR_OUTPUT: u32 = 4;
pub const USB_EPR_INPUT: u32 = 5;

// ------------------------------------
// Endpoint type codes
// ------------------------------------
pub const USB_EPR_TYPE_BULK: u32 = 0;
pub const USB_EPR_TYPE_CONTROL: u32 = 1;
pub const USB_EPR_TYPE_ISO: u32 = 2;
pub const USB_EPR_TYPE_INTERRUPT: u32 = 3;

// ------------------------------------
// STAT field values
// ------------------------------------
pub const USB_EPR_STAT_RX_DISABLED: u32 = 0;
pub const USB_EPR_STAT_RX_STALL: u32 = 1;
pub const USB_EPR_STAT_RX_NAK: u32 = 2;
pub const USB_EPR_STAT_RX_VALID: u32 = 3;

pub const USB_EPR_STAT_TX_DISABLED: u32 = 0;
pub const USB_EPR_STAT_TX_STALL: u32 = 1;
pub const USB_EPR_STAT_TX_NAK: u32 = 2;
pub const USB_EPR_STAT_TX_VALID: u32 = 3;

// ------------------------------------
// CNTR bit definitions
// ------------------------------------
pub const USB_CNTR_FRES: u32 = 0b1;
pub const USB_CNTR_PDWN: u32 = 0b1 << 1;
pub const USB_CNTR_LP_MODE: u32 = 0b1 << 2;
pub const USB_CNTR_FSUSP: u32 = 0b1 << 3;
pub const USB_CNTR_RESUME: u32 = 0b1 << 4;
pub const USB_CNTR_RESETM: u32 = 0b1 << 10;
pub const USB_CNTR_SUSPM: u32 = 0b1 << 11;
pub const USB_CNTR_WKUPM: u32 = 0b1 << 12;
pub const USB_CNTR_CTRM: u32 = 0b1 << 15;

// ------------------------------------
// ISTR bit definitions
// ------------------------------------
pub const USB_ISTR_RESET: u32 = 10;
pub const USB_ISTR_SUSP: u32 = 11;
pub const USB_ISTR_WKUP: u32 = 12;
pub const USB_ISTR_CTR: u32 = 15;

pub const USB_ISTR_EP_ID_MASK: u32 = 0xf;

/// Decoded interrupt causes the controller reacts to, alongside the endpoint
/// indices [0, EP_NUM).
pub const ISTR_RESET_FLAG: usize = 19;
pub const ISTR_SUSPEND_FLAG: usize = 20;
pub const ISTR_WAKEUP_FLAG: usize = 21;

// ------------------------------------
// BCDR bit definitions
// ------------------------------------
pub const USB_BCDR_DPPU: u32 = 15;

// ------------------------------------
// BTABLE count encoding
// ------------------------------------
pub const USB_BDT_COUNT_RX_BL_SIZE: u32 = 15;
pub const USB_BDT_COUNT_RX_BL_NUM_BLOCK: u32 = 10;
pub const USB_BDT_COUNT_RX_COUNT_RX_MASK: u32 = 0x1ff;

/// Size in bytes of the bulk OUT buffer.
pub const USB_OUT_SIZE: u32 = 64;

/// The block-size/number-of-blocks encoding hardware expects in an RX count
/// field sized for a 64-byte buffer.
pub const RX_COUNT_SIZE: u32 = (1 << USB_BDT_COUNT_RX_BL_SIZE) | (((USB_OUT_SIZE / 32) - 1)
    << USB_BDT_COUNT_RX_BL_NUM_BLOCK);

// ------------------------------------
// Packet memory
// ------------------------------------
/// First byte of packet memory handed to the allocator; the buffer
/// descriptor table occupies the bytes below it.
pub const SRAM_ADDR: u32 = 0x20;

/// Bytes of one buffer-descriptor-table entry.
pub const BDT_SIZE: u32 = 8;

/// Size in bytes of the dedicated packet-memory region.
pub const USB_PMA_SIZE: u32 = 1024;

/// The same region counted in 32-bit words.
pub const USB_PMA_WORDS: usize = 256;

// ------------------------------------
// EP0 receive-event bits
// ------------------------------------
pub const USB_EP0_GOT_SETUP: u32 = 1;
pub const USB_EP0_GOT_RX_DATA: u32 = 2;
pub const USB_EP0_GOT_TX_ACK: u32 = 4;

} // verus!
