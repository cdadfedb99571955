//! Per-endpoint register and state.
//!
//! The EPnR hardware register mixes three kinds of bits: plain read-write
//! fields (address, kind, type), toggle fields that flip where a 1 is
//! written (the STAT and DTOG fields), and rc_w0 fields that keep a bit only
//! where a 1 is written (the CTR transfer-complete flags).  `spec_epr_store`
//! captures exactly how a written word lands, and every operation is proved
//! against it: setting a STAT field therefore XORs the current value against
//! the target, never ORs it in.

use vstd::prelude::*;
use crate::usb::defs::{
    BUF_SIZE, MAX_BUF_SIZE, USB_PMA_SIZE, USB_PMA_WORDS, USB_EPR_STAT_TX, USB_EPR_DTOG_TX,
    USB_EPR_CTR_TX, USB_EPR_EP_TYPE, USB_EPR_SETUP, USB_EPR_STAT_RX, USB_EPR_DTOG_RX,
    USB_EPR_CTR_RX, USB_EPR_STAT_TX_MASK, USB_EPR_STAT_RX_MASK, USB_EPR_EP_TYPE_MASK,
    USB_EPR_EA_MASK, USB_EPR_RW_MASK, USB_EPR_TOGGLE_MASK, USB_EPR_RC_W0_MASK, USB_EPR_RO_MASK,
    USB_EPR_REG_MASK, USB_EPR_PRESERVE_MASK, USB_EPR_CONTROL, USB_EPR_INT, USB_EPR_OUTPUT,
    USB_EPR_INPUT, USB_EPR_TYPE_BULK, USB_EPR_TYPE_CONTROL, USB_EPR_TYPE_ISO,
    USB_EPR_TYPE_INTERRUPT, USB_EPR_STAT_RX_DISABLED, USB_EPR_STAT_RX_VALID,
    USB_EPR_STAT_TX_DISABLED, USB_EPR_STAT_TX_NAK, USB_EPR_STAT_TX_VALID,
};
use crate::usb::pma::{PacketMemory, byte_of_word};
use crate::usb::UsbError;

verus! {

/// The roles an endpoint slot can play.  Bulk traffic is split into the
/// device-to-host `Input` role and the host-to-device `Output` role.
/// `Isochronous` is recognised but carries no implemented behavior: asking
/// to initialise such an endpoint fails rather than silently proceeding.
#[derive(Copy, Clone, Debug, PartialEq, Eq, Structural)]
pub enum USBType {
    Control,
    Isochronous,
    Input,
    Output,
    Interrupt,
}

// ------------------------------------------------------------------
// The EPnR write semantics and its field views
// ------------------------------------------------------------------

/// The bits a toggle-write must put on the wire so that the toggled field
/// ends up holding `desired`: the XOR of the current and desired bits,
/// restricted to the field.
pub open spec fn spec_toggle_bits(curr: u32, mask: u32, desired: u32) -> u32 {
    (curr ^ desired) & mask
}

/// Where a write of `w` takes a register currently holding `reg`:
/// read-write fields come from `w`, toggle fields flip where `w` has a 1,
/// rc_w0 fields survive only where `w` has a 1, and the read-only SETUP bit
/// stays.
pub open spec fn spec_epr_store(reg: u32, w: u32) -> u32 {
    (w & USB_EPR_RW_MASK) | ((reg ^ w) & USB_EPR_TOGGLE_MASK) | (reg & w & USB_EPR_RC_W0_MASK) | (
    reg & USB_EPR_RO_MASK)
}

pub open spec fn spec_stat_rx(reg: u32) -> u32 {
    (reg >> USB_EPR_STAT_RX) & USB_EPR_STAT_RX_MASK
}

pub open spec fn spec_stat_tx(reg: u32) -> u32 {
    (reg >> USB_EPR_STAT_TX) & USB_EPR_STAT_TX_MASK
}

pub open spec fn spec_ep_type(reg: u32) -> u32 {
    (reg >> USB_EPR_EP_TYPE) & USB_EPR_EP_TYPE_MASK
}

pub open spec fn spec_ea(reg: u32) -> u32 {
    reg & USB_EPR_EA_MASK
}

pub open spec fn spec_ctr_rx(reg: u32) -> bool {
    (reg >> USB_EPR_CTR_RX) & 1 == 1
}

pub open spec fn spec_ctr_tx(reg: u32) -> bool {
    (reg >> USB_EPR_CTR_TX) & 1 == 1
}

pub open spec fn spec_setup(reg: u32) -> bool {
    (reg >> USB_EPR_SETUP) & 1 == 1
}

/// The DTOG and SETUP bits, which every software write leaves alone.
pub const USB_EPR_KEEP_MASK: u32 = (1 << USB_EPR_DTOG_TX) | (1 << USB_EPR_DTOG_RX) | (1
    << USB_EPR_SETUP);

// ------------------------------------------------------------------
// Closed forms for the register after each operation
// ------------------------------------------------------------------

/// The register after acknowledging both transfer-complete flags: only the
/// CTR bits fall, everything else stays.
pub open spec fn spec_clear_rx_tx_reg(reg: u32) -> u32 {
    reg & (USB_EPR_REG_MASK & !USB_EPR_RC_W0_MASK)
}

/// The register after initialisation: address, type and both STAT targets
/// land exactly; the data-toggle and SETUP bits carry over; the CTR flags
/// are cleared.
pub open spec fn spec_init_reg(reg: u32, addr: u32, ty: u32, rx: u32, tx: u32) -> u32 {
    addr | (ty << USB_EPR_EP_TYPE) | (rx << USB_EPR_STAT_RX) | (tx << USB_EPR_STAT_TX) | (reg
        & USB_EPR_KEEP_MASK)
}

/// The register after a toggle-write of the STAT_TX field alone.
pub open spec fn spec_set_stat_tx_reg(reg: u32, t: u32) -> u32 {
    (reg & (USB_EPR_REG_MASK & !(USB_EPR_STAT_TX_MASK << USB_EPR_STAT_TX))) | (t
        << USB_EPR_STAT_TX)
}

/// The register after a toggle-write of the STAT_RX field alone.
pub open spec fn spec_set_stat_rx_reg(reg: u32, t: u32) -> u32 {
    (reg & (USB_EPR_REG_MASK & !(USB_EPR_STAT_RX_MASK << USB_EPR_STAT_RX))) | (t
        << USB_EPR_STAT_RX)
}

// ------------------------------------------------------------------
// Bit-level lemmas bridging the write semantics to the closed forms
// ------------------------------------------------------------------

proof fn lemma_epr_clear(reg: u32)
    by (bit_vector)
    ensures
        spec_epr_store(reg, reg & USB_EPR_PRESERVE_MASK) == spec_clear_rx_tx_reg(reg),
{
}

proof fn lemma_epr_init(reg: u32, addr: u32, ty: u32, rx: u32, tx: u32)
    by (bit_vector)
    requires
        addr < 16,
        ty < 4,
        rx < 4,
        tx < 4,
    ensures
        spec_epr_store(
            reg,
            spec_toggle_bits(
                reg,
                USB_EPR_STAT_RX_MASK << USB_EPR_STAT_RX,
                rx << USB_EPR_STAT_RX,
            ) | (ty << USB_EPR_EP_TYPE) | spec_toggle_bits(
                reg,
                USB_EPR_STAT_TX_MASK << USB_EPR_STAT_TX,
                tx << USB_EPR_STAT_TX,
            ) | addr,
        ) == spec_init_reg(reg, addr, ty, rx, tx),
{
}

proof fn lemma_epr_set_stat_tx(reg: u32, t: u32)
    by (bit_vector)
    requires
        t < 4,
    ensures
        spec_epr_store(
            reg,
            (reg & USB_EPR_PRESERVE_MASK) | USB_EPR_RC_W0_MASK | spec_toggle_bits(
                reg,
                USB_EPR_STAT_TX_MASK << USB_EPR_STAT_TX,
                t << USB_EPR_STAT_TX,
            ),
        ) == spec_set_stat_tx_reg(reg, t),
{
}

proof fn lemma_epr_set_stat_rx(reg: u32, t: u32)
    by (bit_vector)
    requires
        t < 4,
    ensures
        spec_epr_store(
            reg,
            (reg & USB_EPR_PRESERVE_MASK) | USB_EPR_RC_W0_MASK | spec_toggle_bits(
                reg,
                USB_EPR_STAT_RX_MASK << USB_EPR_STAT_RX,
                t << USB_EPR_STAT_RX,
            ),
        ) == spec_set_stat_rx_reg(reg, t),
{
}

/// How each field of the register reads after initialisation.
pub proof fn lemma_init_reg_fields(reg: u32, addr: u32, ty: u32, rx: u32, tx: u32)
    by (bit_vector)
    requires
        addr < 16,
        ty < 4,
        rx < 4,
        tx < 4,
    ensures
        spec_stat_rx(spec_init_reg(reg, addr, ty, rx, tx)) == rx,
        spec_stat_tx(spec_init_reg(reg, addr, ty, rx, tx)) == tx,
        spec_ep_type(spec_init_reg(reg, addr, ty, rx, tx)) == ty,
        spec_ea(spec_init_reg(reg, addr, ty, rx, tx)) == addr,
        !spec_ctr_rx(spec_init_reg(reg, addr, ty, rx, tx)),
        !spec_ctr_tx(spec_init_reg(reg, addr, ty, rx, tx)),
        spec_setup(spec_init_reg(reg, addr, ty, rx, tx)) == spec_setup(reg),
{
}

/// How each field reads after the transfer-complete flags are acknowledged.
pub proof fn lemma_clear_reg_fields(reg: u32)
    by (bit_vector)
    ensures
        spec_stat_rx(spec_clear_rx_tx_reg(reg)) == spec_stat_rx(reg),
        spec_stat_tx(spec_clear_rx_tx_reg(reg)) == spec_stat_tx(reg),
        spec_ep_type(spec_clear_rx_tx_reg(reg)) == spec_ep_type(reg),
        spec_ea(spec_clear_rx_tx_reg(reg)) == spec_ea(reg),
        !spec_ctr_rx(spec_clear_rx_tx_reg(reg)),
        !spec_ctr_tx(spec_clear_rx_tx_reg(reg)),
        spec_setup(spec_clear_rx_tx_reg(reg)) == spec_setup(reg),
{
}

/// Toggle-write correctness for the STAT_TX field: whatever the register
/// held, after the write the field reads back exactly the target, and no
/// other field moves.
pub proof fn lemma_set_stat_tx_fields(reg: u32, t: u32)
    by (bit_vector)
    requires
        t < 4,
    ensures
        spec_stat_tx(spec_set_stat_tx_reg(reg, t)) == t,
        spec_stat_rx(spec_set_stat_tx_reg(reg, t)) == spec_stat_rx(reg),
        spec_ep_type(spec_set_stat_tx_reg(reg, t)) == spec_ep_type(reg),
        spec_ea(spec_set_stat_tx_reg(reg, t)) == spec_ea(reg),
        spec_ctr_rx(spec_set_stat_tx_reg(reg, t)) == spec_ctr_rx(reg),
        spec_ctr_tx(spec_set_stat_tx_reg(reg, t)) == spec_ctr_tx(reg),
        spec_setup(spec_set_stat_tx_reg(reg, t)) == spec_setup(reg),
{
}

/// Toggle-write correctness for the STAT_RX field.
pub proof fn lemma_set_stat_rx_fields(reg: u32, t: u32)
    by (bit_vector)
    requires
        t < 4,
    ensures
        spec_stat_rx(spec_set_stat_rx_reg(reg, t)) == t,
        spec_stat_tx(spec_set_stat_rx_reg(reg, t)) == spec_stat_tx(reg),
        spec_ep_type(spec_set_stat_rx_reg(reg, t)) == spec_ep_type(reg),
        spec_ea(spec_set_stat_rx_reg(reg, t)) == spec_ea(reg),
        spec_ctr_rx(spec_set_stat_rx_reg(reg, t)) == spec_ctr_rx(reg),
        spec_ctr_tx(spec_set_stat_rx_reg(reg, t)) == spec_ctr_tx(reg),
        spec_setup(spec_set_stat_rx_reg(reg, t)) == spec_setup(reg),
{
}

// ------------------------------------------------------------------
// The initialisation table, one row per endpoint role
// ------------------------------------------------------------------

/// The endpoint address each role announces.
pub open spec fn spec_init_addr(t: USBType) -> u32 {
    match t {
        USBType::Control => USB_EPR_CONTROL,
        USBType::Interrupt => USB_EPR_INT,
        USBType::Input => USB_EPR_INPUT,
        USBType::Output => USB_EPR_OUTPUT,
        USBType::Isochronous => 0,
    }
}

/// The hardware type code each role configures.
pub open spec fn spec_init_type(t: USBType) -> u32 {
    match t {
        USBType::Control => USB_EPR_TYPE_CONTROL,
        USBType::Interrupt => USB_EPR_TYPE_INTERRUPT,
        USBType::Input => USB_EPR_TYPE_BULK,
        USBType::Output => USB_EPR_TYPE_BULK,
        USBType::Isochronous => USB_EPR_TYPE_ISO,
    }
}

/// The STAT_RX value each role starts with.
pub open spec fn spec_init_stat_rx(t: USBType) -> u32 {
    match t {
        USBType::Control => USB_EPR_STAT_RX_VALID,
        USBType::Interrupt => USB_EPR_STAT_RX_DISABLED,
        USBType::Input => USB_EPR_STAT_RX_DISABLED,
        USBType::Output => USB_EPR_STAT_RX_VALID,
        USBType::Isochronous => 0,
    }
}

/// The STAT_TX value each role starts with.
pub open spec fn spec_init_stat_tx(t: USBType) -> u32 {
    match t {
        USBType::Control => USB_EPR_STAT_TX_NAK,
        USBType::Interrupt => USB_EPR_STAT_TX_NAK,
        USBType::Input => USB_EPR_STAT_TX_NAK,
        USBType::Output => USB_EPR_STAT_TX_DISABLED,
        USBType::Isochronous => 0,
    }
}

/// The register an endpoint of role `t` holds after initialisation over a
/// register previously holding `reg`.
pub open spec fn spec_ep_init_reg(reg: u32, t: USBType) -> u32 {
    spec_init_reg(reg, spec_init_addr(t), spec_init_type(t), spec_init_stat_rx(t),
        spec_init_stat_tx(t))
}

// ------------------------------------------------------------------
// The endpoint itself
// ------------------------------------------------------------------

/// One endpoint slot: its register value, its fixed slot index and role,
/// the packet-memory buffer it currently points at, and the two soft flags
/// the interrupt service routine talks to mainline code through.
#[derive(Copy, Clone, Debug)]
pub struct EP {
    /// The EPnR register value.
    pub reg: u32,
    /// The slot index within the controller's endpoint array.
    pub offset: u32,
    /// Byte address of the endpoint's buffer inside packet memory; EP0
    /// rebinds this between its receive and transmit views.
    pub buffer_addr: u32,
    /// The endpoint's role; fixed at construction.
    pub usb_type: USBType,
    /// Capacity in bytes of the endpoint's buffer.
    pub buffer_max: u32,
    /// A transfer has completed and software has not consumed it yet.
    pub pending: bool,
    /// The last transmit did not fill the buffer: a short packet, marking
    /// the end of a transfer.
    pub flushed: bool,
}

impl EP {
    /// The endpoint's buffer is word-aligned and lies inside packet memory.
    pub open spec fn wf(&self) -> bool {
        &&& self.offset < 8
        &&& self.buffer_addr % 4 == 0
        &&& self.buffer_max % 4 == 0
        &&& self.buffer_addr + self.buffer_max <= USB_PMA_SIZE
        &&& self.buffer_max <= MAX_BUF_SIZE
    }

    /// Build an endpoint slot over a buffer the allocator handed out.  The
    /// register starts in its reset state and both soft flags are down.
    pub fn new(offset: u32, buffer_addr: u32, buffer_max: u32, usb_type: USBType) -> (r: EP)
        requires
            offset < 8,
            buffer_addr % 4 == 0,
            buffer_max % 4 == 0,
            buffer_addr + buffer_max <= USB_PMA_SIZE,
            buffer_max <= MAX_BUF_SIZE,
        ensures
            r == (EP {
                reg: 0u32,
                offset,
                buffer_addr,
                usb_type,
                buffer_max,
                pending: false,
                flushed: false,
            }),
            r.wf(),
    {
        EP { reg: 0, offset, buffer_addr, usb_type, buffer_max, pending: false, flushed: false }
    }

    /// Rebind the endpoint's buffer view; EP0 switches between its receive
    /// and transmit buffers this way.
    pub fn set_buffer(&mut self, buffer_location: u32)
        requires
            buffer_location % 4 == 0,
            buffer_location + old(self).buffer_max <= USB_PMA_SIZE,
        ensures
            *final(self) == (EP { buffer_addr: buffer_location, ..*old(self) }),
    {
        self.buffer_addr = buffer_location;
    }

    /// The buffer address currently bound.
    pub fn get_buffer_addr(&self) -> (r: u32)
        ensures
            r == self.buffer_addr,
    {
        self.buffer_addr
    }

    pub fn set_flushed(&mut self, flushed: bool)
        ensures
            *final(self) == (EP { flushed, ..*old(self) }),
    {
        self.flushed = flushed;
    }

    pub fn get_flushed(&self) -> (r: bool)
        ensures
            r == self.flushed,
    {
        self.flushed
    }

    pub fn set_pending(&mut self, pending: bool)
        ensures
            *final(self) == (EP { pending, ..*old(self) }),
    {
        self.pending = pending;
    }

    pub fn get_pending(&self) -> (r: bool)
        ensures
            r == self.pending,
    {
        self.pending
    }

    /// The bits a toggle-write must carry so the toggled field lands on the
    /// desired value.
    fn set_toggle(&self, curr_value: u32, mask: u32, desired_value: u32) -> (r: u32)
        ensures
            r == spec_toggle_bits(curr_value, mask, desired_value),
    {
        (curr_value ^ desired_value) & mask
    }

    /// Put a word on the register, landing it according to the register's
    /// per-field write semantics.
    fn epr_write(&mut self, w: u32)
        ensures
            *final(self) == (EP { reg: spec_epr_store(old(self).reg, w), ..*old(self) }),
    {
        self.reg = (w & USB_EPR_RW_MASK) | ((self.reg ^ w) & USB_EPR_TOGGLE_MASK) | (self.reg & w
            & USB_EPR_RC_W0_MASK) | (self.reg & USB_EPR_RO_MASK);
    }

    /// Configure the endpoint for its role: the role decides the type code,
    /// the announced address and the initial STAT pair.  Isochronous
    /// endpoints are unsupported and fail fast, leaving the slot untouched.
    pub fn init(&mut self) -> (r: Result<(), UsbError>)
        ensures
            r is Ok <==> !(old(self).usb_type is Isochronous),
            r is Err ==> *final(self) == *old(self) && r->Err_0 is UnsupportedEndpointType,
            r is Ok ==> *final(self) == (EP {
                reg: spec_ep_init_reg(old(self).reg, old(self).usb_type),
                ..*old(self)
            }),
    {
        match self.usb_type {
            USBType::Control => {
                self.init_ep(USB_EPR_CONTROL, USB_EPR_TYPE_CONTROL, USB_EPR_STAT_RX_VALID,
                    USB_EPR_STAT_TX_NAK);
                Ok(())
            },
            USBType::Interrupt => {
                self.init_ep(USB_EPR_INT, USB_EPR_TYPE_INTERRUPT, USB_EPR_STAT_RX_DISABLED,
                    USB_EPR_STAT_TX_NAK);
                Ok(())
            },
            USBType::Input => {
                self.init_ep(USB_EPR_INPUT, USB_EPR_TYPE_BULK, USB_EPR_STAT_RX_DISABLED,
                    USB_EPR_STAT_TX_NAK);
                Ok(())
            },
            USBType::Output => {
                self.init_ep(USB_EPR_OUTPUT, USB_EPR_TYPE_BULK, USB_EPR_STAT_RX_VALID,
                    USB_EPR_STAT_TX_DISABLED);
                Ok(())
            },
            USBType::Isochronous => Err(UsbError::UnsupportedEndpointType),
        }
    }

    /// One register write that configures type, address and both STAT
    /// fields, clearing the transfer-complete flags and leaving the toggle
    /// and SETUP bits alone.
    fn init_ep(&mut self, addr: u32, con_type: u32, stat_rx: u32, stat_tx: u32)
        requires
            addr < 16,
            con_type < 4,
            stat_rx < 4,
            stat_tx < 4,
        ensures
            *final(self) == (EP {
                reg: spec_init_reg(old(self).reg, addr, con_type, stat_rx, stat_tx),
                ..*old(self)
            }),
    {
        let reg = self.reg;
        let w = self.set_toggle(reg, USB_EPR_STAT_RX_MASK << USB_EPR_STAT_RX, stat_rx
            << USB_EPR_STAT_RX) | (con_type << USB_EPR_EP_TYPE) | self.set_toggle(reg,
            USB_EPR_STAT_TX_MASK << USB_EPR_STAT_TX, stat_tx << USB_EPR_STAT_TX) | addr;

        proof {
            lemma_epr_init(reg, addr, con_type, stat_rx, stat_tx);
        }
        self.epr_write(w);
    }

    /// Whether the endpoint is occupied with a transfer.  An Output or
    /// Control endpoint is busy while its transmit side is armed; an Input
    /// endpoint while its receive side is armed.  Other roles have no
    /// defined busy notion and may not be asked.
    pub fn is_busy(&self) -> (r: bool)
        requires
            self.usb_type is Output || self.usb_type is Control || self.usb_type is Input,
        ensures
            (self.usb_type is Output || self.usb_type is Control) ==> r == (spec_stat_tx(self.reg)
                == USB_EPR_STAT_TX_VALID),
            self.usb_type is Input ==> r == (spec_stat_rx(self.reg) == USB_EPR_STAT_RX_VALID),
    {
        match self.usb_type {
            USBType::Output | USBType::Control => {
                let epr = (self.reg >> USB_EPR_STAT_TX) & USB_EPR_STAT_TX_MASK;
                epr == USB_EPR_STAT_TX_VALID
            },
            _ => {
                let epr = (self.reg >> USB_EPR_STAT_RX) & USB_EPR_STAT_RX_MASK;
                epr == USB_EPR_STAT_RX_VALID
            },
        }
    }

    /// Acknowledge the two transfer-complete cause bits while carrying the
    /// type, kind and address fields over and writing zeros to the toggle
    /// fields so they stay put.
    pub fn clear_rx_tx(&mut self)
        ensures
            *final(self) == (EP { reg: spec_clear_rx_tx_reg(old(self).reg), ..*old(self) }),
    {
        let reg = self.reg;
        proof {
            lemma_epr_clear(reg);
        }
        self.epr_write(reg & USB_EPR_PRESERVE_MASK);
    }

    /// Acknowledge both transfer-complete flags; the same read-modify-write
    /// as `clear_rx_tx`.
    pub fn clear_ctr_bits(&mut self)
        ensures
            *final(self) == (EP { reg: spec_clear_rx_tx_reg(old(self).reg), ..*old(self) }),
    {
        self.clear_rx_tx();
    }

    /// Toggle-write the STAT_TX field to a target status, leaving every
    /// other field where it stands.
    pub fn set_stat_tx(&mut self, stat_tx: u32)
        requires
            stat_tx < 4,
        ensures
            *final(self) == (EP {
                reg: spec_set_stat_tx_reg(old(self).reg, stat_tx),
                ..*old(self)
            }),
    {
        let reg = self.reg;
        let w = (reg & USB_EPR_PRESERVE_MASK) | USB_EPR_RC_W0_MASK | self.set_toggle(reg,
            USB_EPR_STAT_TX_MASK << USB_EPR_STAT_TX, stat_tx << USB_EPR_STAT_TX);
        proof {
            lemma_epr_set_stat_tx(reg, stat_tx);
        }
        self.epr_write(w);
    }

    /// Toggle-write the STAT_RX field to a target status, leaving every
    /// other field where it stands.
    pub fn set_stat_rx(&mut self, stat_rx: u32)
        requires
            stat_rx < 4,
        ensures
            *final(self) == (EP {
                reg: spec_set_stat_rx_reg(old(self).reg, stat_rx),
                ..*old(self)
            }),
    {
        let reg = self.reg;
        let w = (reg & USB_EPR_PRESERVE_MASK) | USB_EPR_RC_W0_MASK | self.set_toggle(reg,
            USB_EPR_STAT_RX_MASK << USB_EPR_STAT_RX, stat_rx << USB_EPR_STAT_RX);
        proof {
            lemma_epr_set_stat_rx(reg, stat_rx);
        }
        self.epr_write(w);
    }

    /// Apply a new STAT target to the endpoint, honoring toggle-write
    /// semantics.  Which field is touched follows the endpoint's role:
    /// Output and Control endpoints drive their transmit status, Input and
    /// Interrupt endpoints their receive status.  Isochronous endpoints have
    /// no status semantics and may not be asked.
    pub fn set_stat(&mut self, stat_tx: u32, stat_rx: u32)
        requires
            stat_tx < 4,
            stat_rx < 4,
            !(old(self).usb_type is Isochronous),
        ensures
            (old(self).usb_type is Output || old(self).usb_type is Control) ==> *final(self) == (EP {
                reg: spec_set_stat_tx_reg(old(self).reg, stat_tx),
                ..*old(self)
            }),
            (old(self).usb_type is Input || old(self).usb_type is Interrupt) ==> *final(self) == (EP {
                reg: spec_set_stat_rx_reg(old(self).reg, stat_rx),
                ..*old(self)
            }),
    {
        match self.usb_type {
            USBType::Output | USBType::Control => self.set_stat_tx(stat_tx),
            USBType::Input | USBType::Interrupt => self.set_stat_rx(stat_rx),
            USBType::Isochronous => (),
        }
    }

    /// Whether the receive transfer-complete flag stands.
    pub fn epr_ctr_rx(&self) -> (r: bool)
        ensures
            r == spec_ctr_rx(self.reg),
    {
        (self.reg >> USB_EPR_CTR_RX) & 1 == 1
    }

    /// Whether the transmit transfer-complete flag stands.
    pub fn epr_ctr_tx(&self) -> (r: bool)
        ensures
            r == spec_ctr_tx(self.reg),
    {
        (self.reg >> USB_EPR_CTR_TX) & 1 == 1
    }

    /// Whether the completed receive carried a SETUP packet.
    pub fn epr_setup(&self) -> (r: bool)
        ensures
            r == spec_setup(self.reg),
    {
        (self.reg >> USB_EPR_SETUP) & 1 == 1
    }

    /// Put one byte, shifted into the top of a word, at the start of the
    /// endpoint's buffer.
    pub fn ep_set(&self, mem: &mut PacketMemory, data: u8)
        requires
            self.wf(),
            self.buffer_max >= 4,
            old(mem).wf(),
        ensures
            final(mem).wf(),
            final(mem).words() == old(mem).words().update(
                self.buffer_addr as int / 4,
                (data as u32) << 24,
            ),
    {
        let idx = (self.buffer_addr / 4) as usize;
        mem.write_word(idx, (data as u32) << 24);
    }

    /// Copy up to 64 bytes from a software buffer into the endpoint's
    /// packet-memory buffer, four bytes packed little-endian into each
    /// 32-bit word, walking forward one word per four bytes with the
    /// trailing one-to-three byte remainder packed into a final word whose
    /// upper bytes are zero.  Words outside the written range keep their
    /// contents.
    pub fn send_data(&self, mem: &mut PacketMemory, source: &Vec<u8>, bytes: u32)
        requires
            self.wf(),
            old(mem).wf(),
            bytes <= self.buffer_max,
            source@.len() == BUF_SIZE,
        ensures
            final(mem).wf(),
            forall|i: int|
                0 <= i < bytes ==> final(mem).spec_byte(self.buffer_addr + i) == source@[i],
            forall|i: int|
                bytes <= i < 4 * spec_words_used(bytes) ==> #[trigger] final(mem).spec_byte(
                    self.buffer_addr + i,
                ) == 0,
            forall|w: int|
                0 <= w < USB_PMA_WORDS && !(self.buffer_addr / 4 <= w < self.buffer_addr / 4
                    + spec_words_used(bytes)) ==> final(mem).words()[w] == old(mem).words()[w],
    {
        let full_words: u32 = bytes / 4;
        let rem: u32 = bytes % 4;
        let base: usize = (self.buffer_addr / 4) as usize;
        let ghost base_w: int = self.buffer_addr as int / 4;

        proof {
            assert(4 * base_w == self.buffer_addr) by (nonlinear_arith)
                requires
                    self.buffer_addr % 4 == 0,
                    base_w == self.buffer_addr as int / 4,
            ;
        }

        let mut k: u32 = 0;
        while k < full_words
            invariant
                self.wf(),
                mem.wf(),
                k <= full_words,
                full_words == bytes / 4,
                bytes <= self.buffer_max,
                source@.len() == BUF_SIZE,
                base_w == self.buffer_addr as int / 4,
                4 * base_w == self.buffer_addr,
                base == base_w,
                forall|w: int|
                    0 <= w < USB_PMA_WORDS && !(base_w <= w < base_w + k) ==> mem.words()[w]
                        == old(mem).words()[w],
                forall|i: int|
                    0 <= i < 4 * k ==> mem.spec_byte(self.buffer_addr + i) == source@[i],
            decreases full_words - k,
        {
            proof {
                assert(4 * k + 3 < bytes && base_w + k < USB_PMA_WORDS) by (nonlinear_arith)
                    requires
                        k < full_words,
                        full_words == bytes / 4,
                        bytes <= self.buffer_max,
                        self.buffer_addr + self.buffer_max <= USB_PMA_SIZE,
                        4 * base_w == self.buffer_addr,
                        USB_PMA_SIZE == 4 * USB_PMA_WORDS,
                ;
            }
            let s: usize = (4 * k) as usize;
            let b0 = source[s];
            let b1 = source[s + 1];
            let b2 = source[s + 2];
            let b3 = source[s + 3];
            let w = (b0 as u32) | ((b1 as u32) << 8) | ((b2 as u32) << 16) | ((b3 as u32) << 24);
            mem.write_word(base + k as usize, w);
            proof {
                lemma_pack4(b0, b1, b2, b3);
                assert forall|i: int| 0 <= i < 4 * (k + 1) implies mem.spec_byte(
                    self.buffer_addr + i,
                ) == source@[i] by {
                    if i < 4 * k {
                        lemma_pma_index(base_w, i);
                        assert(mem.spec_byte(self.buffer_addr + i) == source@[i]);
                    } else {
                        let j = i - 4 * k;
                        lemma_pma_index(base_w, i);
                        assert((self.buffer_addr + i) / 4 == base_w + k && (self.buffer_addr + i)
                            % 4 == j) by (nonlinear_arith)
                            requires
                                4 * base_w == self.buffer_addr,
                                0 <= j < 4,
                                i == 4 * k + j,
                                k >= 0,
                                base_w >= 0,
                        ;
                    }
                }
            }
            k += 1;
        }

        if rem > 0 {
            proof {
                assert(4 * full_words + rem == bytes && base_w + full_words < USB_PMA_WORDS)
                    by (nonlinear_arith)
                    requires
                        full_words == bytes / 4,
                        rem == bytes % 4,
                        0 < rem < 4,
                        bytes <= self.buffer_max,
                        self.buffer_addr + self.buffer_max <= USB_PMA_SIZE,
                        4 * base_w == self.buffer_addr,
                        USB_PMA_SIZE == 4 * USB_PMA_WORDS,
                ;
            }
            let s: usize = (4 * full_words) as usize;
            let w: u32 = if rem == 1 {
                let b0 = source[s];
                proof {
                    lemma_pack1(b0);
                }
                b0 as u32
            } else if rem == 2 {
                let b0 = source[s];
                let b1 = source[s + 1];
                proof {
                    lemma_pack2(b0, b1);
                }
                (b0 as u32) | ((b1 as u32) << 8)
            } else {
                let b0 = source[s];
                let b1 = source[s + 1];
                let b2 = source[s + 2];
                proof {
                    lemma_pack3(b0, b1, b2);
                }
                (b0 as u32) | ((b1 as u32) << 8) | ((b2 as u32) << 16)
            };
            mem.write_word(base + full_words as usize, w);
            proof {
                assert forall|i: int|
                    4 * full_words <= i < 4 * (full_words + 1) implies #[trigger] mem.spec_byte(
                    self.buffer_addr + i,
                ) == byte_of_word(w, i - 4 * full_words) by {
                    let j = i - 4 * full_words;
                    assert((self.buffer_addr + i) / 4 == base_w + full_words && (self.buffer_addr
                        + i) % 4 == j) by (nonlinear_arith)
                        requires
                            4 * base_w == self.buffer_addr,
                            0 <= j < 4,
                            i == 4 * full_words + j,
                            full_words >= 0,
                            base_w >= 0,
                    ;
                }
                assert forall|i: int| 0 <= i < 4 * full_words implies #[trigger] mem.spec_byte(
                    self.buffer_addr + i,
                ) == source@[i] by {
                    lemma_pma_index(base_w, i);
                }
                assert(spec_words_used(bytes) == full_words + 1) by (nonlinear_arith)
                    requires
                        full_words == bytes / 4,
                        rem == bytes % 4,
                        0 < rem < 4,
                ;
            }
        } else {
            proof {
                assert(spec_words_used(bytes) == full_words && 4 * full_words == bytes)
                    by (nonlinear_arith)
                    requires
                        full_words == bytes / 4,
                        bytes % 4 == 0,
                ;
            }
        }
    }

    /// Unpack bytes from the endpoint's packet-memory buffer into a
    /// software buffer, walking forward one word per four bytes; bytes of
    /// the destination beyond the requested count keep their contents.
    pub fn receive_data(&self, mem: &PacketMemory, destination: &mut Vec<u8>, bytes: u32)
        requires
            self.wf(),
            mem.wf(),
            bytes <= self.buffer_max,
            old(destination)@.len() == BUF_SIZE,
        ensures
            final(destination)@.len() == BUF_SIZE,
            forall|i: int|
                0 <= i < bytes ==> final(destination)@[i] == mem.spec_byte(self.buffer_addr + i),
            forall|i: int|
                bytes <= i < BUF_SIZE ==> final(destination)@[i] == old(destination)@[i],
    {
        let ghost base_w: int = self.buffer_addr as int / 4;
        proof {
            assert(4 * base_w == self.buffer_addr) by (nonlinear_arith)
                requires
                    self.buffer_addr % 4 == 0,
                    base_w == self.buffer_addr as int / 4,
            ;
        }
        let base: usize = (self.buffer_addr / 4) as usize;
        let mut i: u32 = 0;
        while i < bytes
            invariant
                self.wf(),
                mem.wf(),
                i <= bytes,
                bytes <= self.buffer_max,
                destination@.len() == BUF_SIZE,
                base_w == self.buffer_addr as int / 4,
                4 * base_w == self.buffer_addr,
                base == base_w,
                forall|j: int|
                    0 <= j < i ==> destination@[j] == mem.spec_byte(self.buffer_addr + j),
                forall|j: int| i <= j < BUF_SIZE ==> destination@[j] == old(destination)@[j],
            decreases bytes - i,
        {
            proof {
                assert(base_w + i / 4 < USB_PMA_WORDS && (self.buffer_addr + i) / 4 == base_w + i
                    / 4 && (self.buffer_addr + i) % 4 == i % 4) by (nonlinear_arith)
                    requires
                        i < bytes,
                        bytes <= self.buffer_max,
                        self.buffer_addr + self.buffer_max <= USB_PMA_SIZE,
                        4 * base_w == self.buffer_addr,
                        base_w >= 0,
                        USB_PMA_SIZE == 4 * USB_PMA_WORDS,
                ;
            }
            let w = mem.read_word(base + (i / 4) as usize);
            let sh: u32 = (i % 4) * 8;
            let b = ((w >> sh) & 0xff) as u8;
            destination[i as usize] = b;
            i += 1;
        }
    }
}

/// How many packet-memory words a transfer of `bytes` bytes occupies.
pub open spec fn spec_words_used(bytes: u32) -> int {
    (bytes + 3) / 4
}

/// A word packed from four bytes hands each byte back at its offset.
proof fn lemma_pack4(b0: u8, b1: u8, b2: u8, b3: u8)
    by (bit_vector)
    ensures
        ({
            let w = (b0 as u32) | ((b1 as u32) << 8) | ((b2 as u32) << 16) | ((b3 as u32) << 24);
            &&& byte_of_word(w, 0) == b0
            &&& byte_of_word(w, 1) == b1
            &&& byte_of_word(w, 2) == b2
            &&& byte_of_word(w, 3) == b3
        }),
{
}

/// A word packed from three bytes hands them back, with a zero top byte.
proof fn lemma_pack3(b0: u8, b1: u8, b2: u8)
    by (bit_vector)
    ensures
        ({
            let w = (b0 as u32) | ((b1 as u32) << 8) | ((b2 as u32) << 16);
            &&& byte_of_word(w, 0) == b0
            &&& byte_of_word(w, 1) == b1
            &&& byte_of_word(w, 2) == b2
            &&& byte_of_word(w, 3) == 0
        }),
{
}

/// A word packed from two bytes hands them back, with zero upper bytes.
proof fn lemma_pack2(b0: u8, b1: u8)
    by (bit_vector)
    ensures
        ({
            let w = (b0 as u32) | ((b1 as u32) << 8);
            &&& byte_of_word(w, 0) == b0
            &&& byte_of_word(w, 1) == b1
            &&& byte_of_word(w, 2) == 0
            &&& byte_of_word(w, 3) == 0
        }),
{
}

/// A word packed from one byte hands it back, with zero upper bytes.
proof fn lemma_pack1(b0: u8)
    by (bit_vector)
    ensures
        byte_of_word(b0 as u32, 0) == b0,
        byte_of_word(b0 as u32, 1) == 0,
        byte_of_word(b0 as u32, 2) == 0,
        byte_of_word(b0 as u32, 3) == 0,
{
}

/// Splitting a byte address over a word-aligned base: the word index and
/// the offset within the word.
proof fn lemma_pma_index(base: int, i: int)
    by (nonlinear_arith)
    requires
        base >= 0,
        i >= 0,
    ensures
        (4 * base + i) / 4 == base + i / 4,
        (4 * base + i) % 4 == i % 4,
{
}

/// Initialising an endpoint is idempotent on its configuration: running
/// `init` a second time leaves the type code and the endpoint-address field
/// exactly where the first run put them, whatever the data-toggle bits did
/// in between.
pub proof fn lemma_init_type_address_stable(e0: EP, e1: EP, e2: EP)
    requires
        !(e0.usb_type is Isochronous),
        e1 == (EP { reg: spec_ep_init_reg(e0.reg, e0.usb_type), ..e0 }),
        e2 == (EP { reg: spec_ep_init_reg(e1.reg, e1.usb_type), ..e1 }),
    ensures
        spec_ep_type(e2.reg) == spec_ep_type(e1.reg),
        spec_ea(e2.reg) == spec_ea(e1.reg),
        spec_stat_rx(e2.reg) == spec_stat_rx(e1.reg),
        spec_stat_tx(e2.reg) == spec_stat_tx(e1.reg),
{
    let t = e0.usb_type;
    assert(spec_init_addr(t) < 16 && spec_init_type(t) < 4 && spec_init_stat_rx(t) < 4
        && spec_init_stat_tx(t) < 4);
    lemma_init_reg_fields(e0.reg, spec_init_addr(t), spec_init_type(t), spec_init_stat_rx(t),
        spec_init_stat_tx(t));
    lemma_init_reg_fields(e1.reg, spec_init_addr(t), spec_init_type(t), spec_init_stat_rx(t),
        spec_init_stat_tx(t));
}

/// Sending a byte sequence into an endpoint's buffer and then receiving the
/// same count back reproduces the sent bytes exactly: the premises are
/// precisely what `send_data` leaves in packet memory and what
/// `receive_data` reads out of it.
pub proof fn lemma_send_receive_round_trip(
    ep: EP,
    mem: PacketMemory,
    source: Seq<u8>,
    dest: Seq<u8>,
    bytes: u32,
)
    requires
        ep.wf(),
        bytes <= ep.buffer_max,
        forall|i: int| 0 <= i < bytes ==> mem.spec_byte(ep.buffer_addr + i) == source[i],
        forall|i: int| 0 <= i < bytes ==> dest[i] == mem.spec_byte(ep.buffer_addr + i),
    ensures
        forall|i: int| 0 <= i < bytes ==> dest[i] == source[i],
{
}

} // verus!
