//! USB full-speed device controller.
//!
//! The controller owns the endpoint array, the buffer-descriptor table, the
//! packet-memory allocator and the device-level registers, and drives
//! device-level init, suspend, resume and reset together with the
//! interrupt-service dispatch into the endpoints.
//!
//! Host traffic makes the hardware set interrupt-cause bits; the service
//! routine reads the cause, dispatches to the addressed endpoint, toggles
//! its status bits and moves bytes between packet memory and the shared
//! software-side buffers.

use vstd::prelude::*;

pub mod defs;
pub mod pma;
pub mod sram;
pub mod btable;
pub mod bcdr;
pub mod daddr;
pub mod cntr;
pub mod istr;
pub mod epnr;

use crate::usb::defs::{
    EP_NUM, EP0, INT, OUT, IN, BUF_SIZE, MAX_BUF_SIZE, SRAM_ADDR, RX_COUNT_SIZE, USB_PMA_SIZE,
    USB_PMA_WORDS, USB_BDT_COUNT_RX_COUNT_RX_MASK, USB_EP0_GOT_SETUP, USB_EP0_GOT_RX_DATA,
    USB_EP0_GOT_TX_ACK, USB_ISTR_EP_ID_MASK, USB_EPR_STAT_TX_VALID, USB_EPR_STAT_TX_NAK,
    USB_EPR_STAT_RX_VALID,
    USB_CNTR_FSUSP, USB_CNTR_LP_MODE, USB_CNTR_FRES, USB_CNTR_CTRM, USB_CNTR_RESETM,
    USB_CNTR_SUSPM, USB_CNTR_WKUPM, ISTR_RESET_FLAG, ISTR_SUSPEND_FLAG, ISTR_WAKEUP_FLAG,
};
use crate::usb::pma::PacketMemory;
use crate::usb::sram::{SRAM, USBSize};
use crate::usb::btable::BTABLE;
use crate::usb::bcdr::BCDR;
use crate::usb::cntr::CNTR;
use crate::usb::istr::{ISTR, istr_is_ep, istr_ep_id, istr_is_reset, istr_is_suspend,
    istr_is_wakeup, istr_is_unknown};
use crate::usb::epnr::{EP, USBType, spec_clear_rx_tx_reg, spec_set_stat_rx_reg,
    spec_set_stat_tx_reg, spec_ep_init_reg, spec_ctr_rx, spec_ctr_tx, spec_setup,
    spec_words_used};

verus! {

/// The count field of the hardware's receive-count encoding is empty both
/// in a fresh descriptor and in a cleared one.
proof fn lemma_count_mask_consts()
    by (bit_vector)
    ensures
        RX_COUNT_SIZE & USB_BDT_COUNT_RX_COUNT_RX_MASK == 0,
        0u32 & USB_BDT_COUNT_RX_COUNT_RX_MASK == 0,
{
}

/// Updating the same slot twice keeps only the second value.
proof fn lemma_ep_update_twice(s: Seq<EP>, i: int, x: EP, y: EP)
    requires
        0 <= i < s.len(),
    ensures
        s.update(i, x).update(i, y) == s.update(i, y),
{
    assert(s.update(i, x).update(i, y) =~= s.update(i, y));
}

/// Putting a slot's own value back changes nothing.
proof fn lemma_ep_update_same(s: Seq<EP>, i: int)
    requires
        0 <= i < s.len(),
    ensures
        s.update(i, s[i]) == s,
{
    assert(s.update(i, s[i]) =~= s);
}

/// The faults the driver can report instead of recovering.
///
/// Unsupported endpoint roles, out-of-range endpoint indices and unknown
/// interrupt causes are programming or configuration errors; the
/// unimplemented follow-ups of EP0 handling announce themselves explicitly
/// rather than passing as silent no-ops.
#[derive(Copy, Clone, Debug, PartialEq, Eq, Structural)]
pub enum UsbError {
    /// `init` was asked to configure an endpoint role with no implemented
    /// behavior.
    UnsupportedEndpointType,
    /// The interrupt status named an endpoint slot outside the known set.
    InvalidEndpoint,
    /// The interrupt status carried no recognised cause.
    UnknownInterrupt,
    /// A recognised event whose follow-up is not wired up yet.
    NotImplemented,
}

/// The device-level lifecycle of the controller.
#[derive(Copy, Clone, Debug, PartialEq, Eq, Structural)]
pub enum DeviceState {
    Uninitialized,
    Enabled,
    Suspended,
}

/// The USB device controller.
///
/// Registers and packet memory are values the controller owns; the
/// hardware's half of the interface — raising interrupt causes, filling
/// receive counts, setting transfer-complete bits — is modelled by writing
/// those fields before driving the service routine.
pub struct USB {
    pub cntr: CNTR,
    pub istr: ISTR,
    pub bcdr: BCDR,
    pub btable: Vec<BTABLE>,
    pub ep: Vec<EP>,
    pub sram: SRAM,
    pub pma: PacketMemory,
    /// Shared receive staging buffer: host to device.
    pub rx_buffer: Vec<u8>,
    /// Shared transmit staging buffer: device to host.
    pub tx_buffer: Vec<u8>,
    /// Bytes currently held in `rx_buffer`.
    pub rx_count: u32,
    /// Bytes currently held in `tx_buffer`.
    pub tx_count: u32,
    /// EP0 receive-event bitmask: setup-received, data-received,
    /// tx-ack-received.
    pub ep0_receive: u32,
    /// The byte of the last SETUP packet the host sent.
    pub usb_setup: u8,
    /// Where the controller stands in its lifecycle.
    pub device_state: DeviceState,
}

/// The fixed buffer capacity of each endpoint slot.
pub open spec fn spec_slot_size(i: int) -> u32 {
    if i == 0 {
        32
    } else if i == 1 {
        8
    } else {
        64
    }
}

/// The role of each endpoint slot.
pub open spec fn spec_slot_type(i: int) -> USBType {
    if i == 0 {
        USBType::Control
    } else if i == 1 {
        USBType::Interrupt
    } else if i == 2 {
        USBType::Output
    } else {
        USBType::Input
    }
}

impl USB {
    /// One endpoint slot and its descriptor-table entry are coherent: the
    /// slot holds its fixed role and buffer size, and both descriptor
    /// addresses are word-aligned buffers inside packet memory with a
    /// receive count that fits the buffer.
    pub open spec fn slot_wf(&self, i: int) -> bool {
        &&& self.ep@[i].wf()
        &&& self.ep@[i].usb_type == spec_slot_type(i)
        &&& self.ep@[i].buffer_max == spec_slot_size(i)
        &&& self.btable@[i].rx_addr % 4 == 0
        &&& self.btable@[i].tx_addr % 4 == 0
        &&& self.btable@[i].rx_addr + spec_slot_size(i) <= USB_PMA_SIZE
        &&& self.btable@[i].tx_addr + spec_slot_size(i) <= USB_PMA_SIZE
        &&& (self.btable@[i].rx_count & USB_BDT_COUNT_RX_COUNT_RX_MASK) <= spec_slot_size(i)
    }

    /// The controller's structural invariant: four endpoint slots in their
    /// fixed roles with their fixed buffer sizes, every buffer and
    /// descriptor address word-aligned inside packet memory, the staging
    /// buffers at their fixed size, and every receive count within its
    /// endpoint's buffer.
    pub open spec fn wf(&self) -> bool {
        &&& self.btable@.len() == EP_NUM
        &&& self.ep@.len() == EP_NUM
        &&& self.pma.wf()
        &&& self.rx_buffer@.len() == BUF_SIZE
        &&& self.tx_buffer@.len() == BUF_SIZE
        &&& self.rx_count <= MAX_BUF_SIZE
        &&& self.tx_count <= MAX_BUF_SIZE
        &&& self.slot_wf(0)
        &&& self.slot_wf(1)
        &&& self.slot_wf(2)
        &&& self.slot_wf(3)
    }

    // --------------------------------------------------------------
    // Frame predicates shared by the contracts below
    // --------------------------------------------------------------

    /// The fields none of the interrupt-path operations touch.
    pub open spec fn frame_core(pre: USB, post: USB) -> bool {
        &&& post.cntr == pre.cntr
        &&& post.bcdr == pre.bcdr
        &&& post.sram == pre.sram
        &&& post.rx_buffer@ == pre.rx_buffer@
        &&& post.tx_buffer@ == pre.tx_buffer@
        &&& post.rx_count == pre.rx_count
        &&& post.tx_count == pre.tx_count
        &&& post.usb_setup == pre.usb_setup
        &&& post.device_state == pre.device_state
    }

    /// Nothing but the interrupt status register moved.
    pub open spec fn frame_all(pre: USB, post: USB) -> bool {
        &&& Self::frame_core(pre, post)
        &&& post.ep@ == pre.ep@
        &&& post.btable@ == pre.btable@
        &&& post.pma.words() == pre.pma.words()
        &&& post.ep0_receive == pre.ep0_receive
    }

    // --------------------------------------------------------------
    // Relations describing each interrupt-path effect
    // --------------------------------------------------------------

    /// What `usb_ep0_setup` does, run from a state where EP0 holds `ep0`:
    /// EP0's buffer view moves to its transmit buffer, the SETUP byte lands
    /// in that buffer's first word, the transmit count becomes 8, the bytes
    /// the host delivered are copied from the receive staging buffer into
    /// EP0's packet memory, and EP0's receive side is re-armed to Valid.
    pub open spec fn ep0_setup_rel(pre: USB, post: USB, ep0: EP) -> bool {
        let tx_addr = pre.btable@[0].tx_addr;
        let len = pre.btable@[0].rx_count & USB_BDT_COUNT_RX_COUNT_RX_MASK;
        &&& Self::frame_core(pre, post)
        &&& post.ep0_receive == pre.ep0_receive
        &&& post.ep@ == pre.ep@.update(0, EP {
            reg: spec_set_stat_rx_reg(ep0.reg, USB_EPR_STAT_RX_VALID),
            buffer_addr: tx_addr,
            ..ep0
        })
        &&& post.btable@ == pre.btable@.update(0, BTABLE { tx_count: 8, ..pre.btable@[0] })
        &&& (len == 0 ==> post.pma.words() == pre.pma.words().update(
            tx_addr as int / 4,
            (pre.usb_setup as u32) << 24,
        ))
        &&& (len > 0 ==> {
            &&& forall|i: int|
                0 <= i < len ==> post.pma.spec_byte(tx_addr + i) == pre.rx_buffer@[i]
            &&& forall|w: int|
                0 <= w < USB_PMA_WORDS && !(tx_addr / 4 <= w < tx_addr / 4 + spec_words_used(len))
                    ==> post.pma.words()[w] == pre.pma.words()[w]
        })
    }

    /// What `usb_ep0_handle` does with an event mask, run from a state
    /// where EP0 holds `ep0`: the receive-event mask is consumed, a
    /// setup-received bit triggers the SETUP handling, and the data and
    /// tx-ack events are only acknowledged.
    pub open spec fn ep0_handle_rel(pre: USB, post: USB, ep0: EP, handle: u32) -> bool {
        &&& post.ep0_receive == 0
        &&& (handle & USB_EP0_GOT_SETUP != 0 ==> Self::ep0_setup_rel(
            USB { ep0_receive: 0u32, ..pre },
            post,
            ep0,
        ))
        &&& (handle & USB_EP0_GOT_SETUP == 0 ==> {
            &&& Self::frame_core(pre, post)
            &&& post.ep@ == pre.ep@.update(0, ep0)
            &&& post.btable@ == pre.btable@
            &&& post.pma.words() == pre.pma.words()
        })
    }

    /// What a bus reset does: every endpoint is re-initialised for its role
    /// and EP0's descriptor counts are cleared.
    pub open spec fn isr_reset_rel(pre: USB, post: USB) -> bool {
        &&& Self::frame_core(pre, post)
        &&& post.ep0_receive == pre.ep0_receive
        &&& post.pma.words() == pre.pma.words()
        &&& post.ep@.len() == EP_NUM
        &&& forall|i: int|
            0 <= i < EP_NUM ==> post.ep@[i] == (EP {
                reg: spec_ep_init_reg(pre.ep@[i].reg, pre.ep@[i].usb_type),
                ..pre.ep@[i]
            })
        &&& post.btable@ == pre.btable@.update(0, BTABLE {
            rx_count: 0u32,
            tx_count: 0u32,
            ..pre.btable@[0]
        })
    }

    /// The EP0 receive-event mask the service routine accumulates from the
    /// snapshotted register: a completed receive contributes the
    /// setup-received or data-received bit, a completed transmit the
    /// tx-ack bit.
    pub open spec fn spec_ep0_mask(recv: u32, reg: u32) -> u32 {
        let m1 = if spec_ctr_rx(reg) {
            if spec_setup(reg) {
                recv | USB_EP0_GOT_SETUP
            } else {
                recv | USB_EP0_GOT_RX_DATA
            }
        } else {
            recv
        };
        if spec_ctr_tx(reg) {
            m1 | USB_EP0_GOT_TX_ACK
        } else {
            m1
        }
    }

    /// What the service routine does to the endpoint the cause names.
    pub open spec fn isr_ep_rel(pre: USB, post: USB, id: int, r: Result<(), UsbError>) -> bool {
        if id >= EP_NUM {
            &&& r is Err
            &&& r->Err_0 is InvalidEndpoint
            &&& Self::frame_all(pre, post)
        } else {
            let oep = pre.ep@[id];
            let cleared = EP { reg: spec_clear_rx_tx_reg(oep.reg), ..oep };
            if id == 0 {
                let mask = Self::spec_ep0_mask(pre.ep0_receive, oep.reg);
                &&& (r is Ok <==> mask & (USB_EP0_GOT_RX_DATA | USB_EP0_GOT_TX_ACK) == 0)
                &&& (r is Err ==> r->Err_0 is NotImplemented)
                &&& Self::ep0_handle_rel(pre, post, cleared, mask)
            } else if id == 1 {
                &&& r is Ok
                &&& Self::frame_core(pre, post)
                &&& post.ep0_receive == pre.ep0_receive
                &&& post.btable@ == pre.btable@
                &&& post.pma.words() == pre.pma.words()
                &&& post.ep@ == pre.ep@.update(1, EP {
                    reg: if spec_ctr_tx(oep.reg) {
                        spec_set_stat_rx_reg(spec_clear_rx_tx_reg(oep.reg), USB_EPR_STAT_TX_NAK)
                    } else {
                        spec_clear_rx_tx_reg(oep.reg)
                    },
                    ..oep
                })
            } else {
                let hit = if id == 2 {
                    spec_ctr_rx(oep.reg)
                } else {
                    spec_ctr_tx(oep.reg)
                };
                &&& r is Ok
                &&& Self::frame_core(pre, post)
                &&& post.ep0_receive == pre.ep0_receive
                &&& post.btable@ == pre.btable@
                &&& post.pma.words() == pre.pma.words()
                &&& post.ep@ == pre.ep@.update(id, EP {
                    pending: if hit {
                        true
                    } else {
                        oep.pending
                    },
                    ..cleared
                })
            }
        }
    }

    // --------------------------------------------------------------
    // Construction
    // --------------------------------------------------------------

    /// Build the controller with its fixed endpoint layout: EP0 takes two
    /// control-sized buffers for its receive and transmit views, then the
    /// interrupt, bulk OUT and bulk IN endpoints take one buffer each, in
    /// slot order, so the descriptor table below matches the allocator's
    /// hand-outs exactly.
    pub fn usb() -> (r: USB)
        ensures
            r.wf(),
            r.device_state is Uninitialized,
            r.cntr.0 == 0,
            r.istr.0 == 0,
            r.bcdr.0 == 0,
            r.ep0_receive == 0,
            r.rx_count == 0,
            r.tx_count == 0,
            r.usb_setup == 0,
            forall|i: int| 0 <= i < EP_NUM ==> (#[trigger] r.ep@[i]).reg == 0,
            forall|i: int|
                0 <= i < EP_NUM ==> !(#[trigger] r.ep@[i]).pending && !r.ep@[i].flushed,
            forall|i: int| 0 <= i < USB_PMA_WORDS ==> r.pma.words()[i] == 0u32,
            r.ep@[0].buffer_addr == r.btable@[0].rx_addr,
            forall|i: int|
                1 <= i < EP_NUM ==> (#[trigger] r.btable@[i]).rx_addr == r.ep@[i].buffer_addr
                    && r.btable@[i].tx_addr == r.ep@[i].buffer_addr,
            r.btable@[0].rx_addr + 32 == r.btable@[0].tx_addr,
            r.btable@[0].rx_count == RX_COUNT_SIZE,
            r.btable@[0].tx_count == 0,
            r.btable@[2].rx_count == RX_COUNT_SIZE,
            r.btable@[1].rx_count == 0,
            r.btable@[3].rx_count == 0,
    {
        let mut sram = SRAM::new(SRAM_ADDR);

        let ep0_rx_addr = sram.allocate_usb_space(USBSize::Control);
        let ep0_tx_addr = sram.allocate_usb_space(USBSize::Control);
        let ep1_addr = sram.allocate_usb_space(USBSize::Interrupt);
        let ep2_addr = sram.allocate_usb_space(USBSize::Bulk);
        let ep3_addr = sram.allocate_usb_space(USBSize::Bulk);

        let mut ep: Vec<EP> = Vec::new();
        ep.push(EP::new(0, ep0_rx_addr, 32, USBType::Control));
        ep.push(EP::new(1, ep1_addr, 8, USBType::Interrupt));
        ep.push(EP::new(2, ep2_addr, 64, USBType::Output));
        ep.push(EP::new(3, ep3_addr, 64, USBType::Input));

        let mut btable: Vec<BTABLE> = Vec::new();
        btable.push(BTABLE::new(ep0_rx_addr, ep0_tx_addr, RX_COUNT_SIZE, 0));
        btable.push(BTABLE::new(ep1_addr, ep1_addr, 0, 0));
        btable.push(BTABLE::new(ep2_addr, ep2_addr, RX_COUNT_SIZE, 0));
        btable.push(BTABLE::new(ep3_addr, ep3_addr, 0, 0));

        let rx_buffer: Vec<u8> = vec![0u8; BUF_SIZE];
        let tx_buffer: Vec<u8> = vec![0u8; BUF_SIZE];

        let r = USB {
            cntr: CNTR(0),
            istr: ISTR(0),
            bcdr: BCDR(0),
            btable,
            ep,
            sram,
            pma: PacketMemory::new(),
            rx_buffer,
            tx_buffer,
            rx_count: 0,
            tx_count: 0,
            ep0_receive: 0,
            usb_setup: 0,
            device_state: DeviceState::Uninitialized,
        };
        proof {
            lemma_count_mask_consts();
            assert(r.slot_wf(0));
            assert(r.slot_wf(1));
            assert(r.slot_wf(2));
            assert(r.slot_wf(3));
        }
        r
    }

    // --------------------------------------------------------------
    // Device lifecycle: bring-up and tear-down
    // --------------------------------------------------------------

    /// Bring the device up: enable the configuration and USB peripheral
    /// clocks, select the 48 MHz clock for the PLL, route and prioritise
    /// the USB interrupt, reset the controller, unmask its interrupt
    /// causes, initialise every endpoint, and finally raise the pull-up
    /// that announces the device to the host.  Remapping the PA11/PA12
    /// pins is the system-configuration collaborator's job and happens
    /// outside this model.
    pub fn usb_init(&mut self, rcc: &mut crate::rcc::RawRCC, nvic: &mut crate::interrupt::RawNvic)
        -> (r: Result<(), UsbError>)
        requires
            old(self).wf(),
            old(nvic).wf(),
        ensures
            final(self).wf(),
            final(nvic).wf(),
            r is Ok,
            final(self).device_state is Enabled,
            final(self).istr.0 == 0,
            final(self).cntr.0 == USB_CNTR_CTRM | USB_CNTR_RESETM | USB_CNTR_SUSPM
                | USB_CNTR_WKUPM,
            final(self).bcdr.0 & (1u32 << crate::usb::defs::USB_BCDR_DPPU) != 0,
            forall|i: int|
                0 <= i < EP_NUM ==> final(self).ep@[i] == (EP {
                    reg: spec_ep_init_reg(old(self).ep@[i].reg, old(self).ep@[i].usb_type),
                    ..old(self).ep@[i]
                }),
            final(rcc).apbenr1.0 == (old(rcc).apbenr1.0 & !crate::rcc::defs::USBEN)
                | crate::rcc::defs::USBEN,
            final(rcc).apbenr2.0 == (old(rcc).apbenr2.0 & !crate::rcc::defs::SYSCFGCOMPEN)
                | crate::rcc::defs::SYSCFGCOMPEN,
            final(nvic).iser.0 == old(nvic).iser.0 | (1u32 << 31),
    {
        rcc.enable_peripheral(crate::rcc::Peripheral::SysCfgComp);

        self.usb_enable(rcc, nvic);
        let r = self.ep_init();
        match r {
            Ok(()) => {
                self.device_state = DeviceState::Enabled;
                Ok(())
            },
            Err(e) => Err(e),
        }
    }

    /// Power the controller's bus side up: clock it from HSI48, pulse the
    /// pull-up, route its interrupt, reset it and unmask its interrupt
    /// causes, then raise the pull-up for good.  The settle delay the
    /// hardware wants between the reset and the pull-up has no meaning in
    /// this register model and is elided.
    fn usb_enable(&mut self, rcc: &mut crate::rcc::RawRCC, nvic: &mut crate::interrupt::RawNvic)
        requires
            old(self).wf(),
            old(nvic).wf(),
        ensures
            final(self).wf(),
            final(nvic).wf(),
            final(self).istr.0 == 0,
            final(self).cntr.0 == USB_CNTR_CTRM | USB_CNTR_RESETM | USB_CNTR_SUSPM
                | USB_CNTR_WKUPM,
            final(self).bcdr.0 & (1u32 << crate::usb::defs::USB_BCDR_DPPU) != 0,
            final(self).ep@ == old(self).ep@,
            final(self).btable@ == old(self).btable@,
            final(self).pma.words() == old(self).pma.words(),
            final(self).ep0_receive == old(self).ep0_receive,
            final(self).device_state == old(self).device_state,
            final(self).rx_buffer@ == old(self).rx_buffer@,
            final(self).tx_buffer@ == old(self).tx_buffer@,
            final(self).rx_count == old(self).rx_count,
            final(self).tx_count == old(self).tx_count,
            final(self).usb_setup == old(self).usb_setup,
            final(self).sram == old(self).sram,
            final(rcc).apbenr1.0 == (old(rcc).apbenr1.0 & !crate::rcc::defs::USBEN)
                | crate::rcc::defs::USBEN,
            final(rcc).apbenr2 == old(rcc).apbenr2,
            final(nvic).iser.0 == old(nvic).iser.0 | (1u32 << 31),
    {
        rcc.set_pll_source(crate::rcc::Clock::HSI48);
        rcc.enable_peripheral(crate::rcc::Peripheral::USB);

        self.bcdr.enable_usb_pullup();
        // Clear the reset condition signalled to the host by dropping the
        // pull-up again before configuration.
        self.bcdr.disable_usb_pullup();

        nvic.enable_interrupt(crate::interrupt::Hardware::Usb);
        nvic.set_priority(crate::interrupt::Priority::High, crate::interrupt::Hardware::Usb);

        self.cntr.reset_controller();
        self.cntr.clear();
        self.istr.clear();
        self.cntr.enable_interrupts();

        self.bcdr.enable_usb_pullup();

        proof {
            let m = USB_CNTR_CTRM | USB_CNTR_RESETM | USB_CNTR_SUSPM | USB_CNTR_WKUPM;
            assert(0u32 | m == m) by (bit_vector);
            let b = old(self).bcdr.0;
            let d = 1u32 << crate::usb::defs::USB_BCDR_DPPU;
            assert((((b | d) & !d) | d) & d != 0) by (bit_vector)
                requires
                    d == 1u32 << crate::usb::defs::USB_BCDR_DPPU,
            ;
        }
    }

    /// Tear the device down: reset the controller, clear its status, drop
    /// the pull-up, power the analog side off and gate the peripheral
    /// clock.  The interrupt-masked critical section around this sequence
    /// has no counterpart in the single-threaded model.
    pub fn usb_disable(&mut self, rcc: &mut crate::rcc::RawRCC)
        requires
            old(self).wf(),
        ensures
            final(self).wf(),
            final(self).device_state is Uninitialized,
            final(self).istr.0 == 0,
            final(self).cntr.0 == (((old(self).cntr.0 | USB_CNTR_FRES) & !USB_CNTR_FRES)
                | crate::usb::defs::USB_CNTR_PDWN) | USB_CNTR_LP_MODE,
            final(self).bcdr.0 == old(self).bcdr.0 & !(1u32 << crate::usb::defs::USB_BCDR_DPPU),
            final(self).ep@ == old(self).ep@,
            final(self).btable@ == old(self).btable@,
            final(self).pma.words() == old(self).pma.words(),
            final(rcc).apbenr1.0 == old(rcc).apbenr1.0 & !crate::rcc::defs::USBEN,
    {
        self.cntr.reset_controller();
        self.istr.clear();
        self.bcdr.disable_usb_pullup();
        self.cntr.turn_off_device();

        rcc.disable_peripheral(crate::rcc::Peripheral::USB);

        self.device_state = DeviceState::Uninitialized;
    }

    // --------------------------------------------------------------
    // Endpoint and descriptor initialisation
    // --------------------------------------------------------------

    /// Initialise every endpoint for its role.  The fixed layout holds no
    /// isochronous endpoint, so this always succeeds.
    pub fn ep_init(&mut self) -> (r: Result<(), UsbError>)
        requires
            old(self).wf(),
        ensures
            final(self).wf(),
            r is Ok,
            final(self).ep@.len() == EP_NUM,
            forall|i: int|
                0 <= i < EP_NUM ==> final(self).ep@[i] == (EP {
                    reg: spec_ep_init_reg(old(self).ep@[i].reg, old(self).ep@[i].usb_type),
                    ..old(self).ep@[i]
                }),
            Self::frame_core(*old(self), *final(self)),
            final(self).istr == old(self).istr,
            final(self).ep0_receive == old(self).ep0_receive,
            final(self).btable@ == old(self).btable@,
            final(self).pma.words() == old(self).pma.words(),
    {
        let mut i: usize = 0;
        while i < EP_NUM
            invariant
                self.wf(),
                i <= EP_NUM,
                forall|j: int|
                    0 <= j < i ==> self.ep@[j] == (EP {
                        reg: spec_ep_init_reg(old(self).ep@[j].reg, old(self).ep@[j].usb_type),
                        ..old(self).ep@[j]
                    }),
                forall|j: int| i <= j < EP_NUM ==> self.ep@[j] == old(self).ep@[j],
                Self::frame_core(*old(self), *self),
                self.istr == old(self).istr,
                self.ep0_receive == old(self).ep0_receive,
                self.btable@ == old(self).btable@,
                self.pma.words() == old(self).pma.words(),
            decreases EP_NUM - i,
        {
            let mut e = self.ep[i];
            let res = e.init();
            match res {
                Ok(()) => {
                    self.ep[i] = e;
                },
                Err(err) => {
                    return Err(err);
                },
            }
            i += 1;
        }
        Ok(())
    }

    /// Clear EP0's descriptor counts.
    pub fn btable_init(&mut self)
        requires
            old(self).wf(),
        ensures
            final(self).wf(),
            final(self).btable@ == old(self).btable@.update(0, BTABLE {
                rx_count: 0u32,
                tx_count: 0u32,
                ..old(self).btable@[0]
            }),
            Self::frame_core(*old(self), *final(self)),
            final(self).istr == old(self).istr,
            final(self).ep0_receive == old(self).ep0_receive,
            final(self).ep@ == old(self).ep@,
            final(self).pma.words() == old(self).pma.words(),
    {
        let mut b = self.btable[EP0];
        b.set_rx_count(0);
        b.set_tx_count(0);
        self.btable[EP0] = b;
        proof {
            lemma_count_mask_consts();
        }
    }

    // --------------------------------------------------------------
    // Data movement between the staging buffers and packet memory
    // --------------------------------------------------------------

    /// Hand the transmit staging buffer to an endpoint: mark the transfer
    /// pending, mark it flushed when the buffer is short of a full packet,
    /// copy the bytes into the endpoint's packet memory and arm its
    /// transmit side.
    pub fn usb_send_data(&mut self, ep_num: usize)
        requires
            old(self).wf(),
            ep_num < EP_NUM,
            old(self).tx_count <= old(self).ep@[ep_num as int].buffer_max,
        ensures
            final(self).wf(),
            ({
                let pre = *old(self);
                let post = *final(self);
                let oep = pre.ep@[ep_num as int];
                &&& Self::frame_core(pre, post)
                &&& post.istr == pre.istr
                &&& post.ep0_receive == pre.ep0_receive
                &&& post.btable@ == pre.btable@
                &&& post.ep@ == pre.ep@.update(ep_num as int, EP {
                    reg: spec_set_stat_tx_reg(oep.reg, USB_EPR_STAT_TX_VALID),
                    pending: true,
                    flushed: if pre.tx_count != oep.buffer_max {
                        true
                    } else {
                        oep.flushed
                    },
                    ..oep
                })
                &&& forall|i: int|
                    0 <= i < pre.tx_count ==> post.pma.spec_byte(oep.buffer_addr + i)
                        == pre.tx_buffer@[i]
                &&& forall|w: int|
                    0 <= w < USB_PMA_WORDS && !(oep.buffer_addr / 4 <= w < oep.buffer_addr / 4
                        + spec_words_used(pre.tx_count)) ==> post.pma.words()[w]
                        == pre.pma.words()[w]
            }),
    {
        let mut e = self.ep[ep_num];
        e.set_pending(true);

        if self.tx_count != e.buffer_max {
            e.set_flushed(true);
        }
        e.send_data(&mut self.pma, &self.tx_buffer, self.tx_count);
        e.set_stat_tx(USB_EPR_STAT_TX_VALID);
        self.ep[ep_num] = e;
    }

    /// Pull the bytes the host delivered to an endpoint out of packet
    /// memory into the receive staging buffer; the byte count comes from
    /// the endpoint's descriptor, under the count mask.
    pub fn usb_recv_data(&mut self, ep_num: usize)
        requires
            old(self).wf(),
            ep_num < EP_NUM,
        ensures
            final(self).wf(),
            ({
                let pre = *old(self);
                let post = *final(self);
                let oep = pre.ep@[ep_num as int];
                let len = pre.btable@[ep_num as int].rx_count & USB_BDT_COUNT_RX_COUNT_RX_MASK;
                &&& post.cntr == pre.cntr
                &&& post.istr == pre.istr
                &&& post.bcdr == pre.bcdr
                &&& post.sram == pre.sram
                &&& post.tx_buffer@ == pre.tx_buffer@
                &&& post.tx_count == pre.tx_count
                &&& post.usb_setup == pre.usb_setup
                &&& post.device_state == pre.device_state
                &&& post.ep0_receive == pre.ep0_receive
                &&& post.ep@ == pre.ep@
                &&& post.btable@ == pre.btable@
                &&& post.pma.words() == pre.pma.words()
                &&& post.rx_count == len
                &&& forall|i: int|
                    0 <= i < len ==> post.rx_buffer@[i] == pre.pma.spec_byte(oep.buffer_addr + i)
                &&& forall|i: int|
                    len <= i < BUF_SIZE ==> post.rx_buffer@[i] == pre.rx_buffer@[i]
            }),
    {
        let e = self.ep[ep_num];
        let len = self.btable[ep_num].get_rx_count() & USB_BDT_COUNT_RX_COUNT_RX_MASK;
        e.receive_data(&self.pma, &mut self.rx_buffer, len);
        self.rx_count = len;
    }

    // --------------------------------------------------------------
    // The interrupt service routine and EP0 handling
    // --------------------------------------------------------------

    /// Service one interrupt cause.
    ///
    /// The cause word is read and cleared first, so the next hardware event
    /// is never lost.  An endpoint cause snapshots the endpoint's register
    /// before acknowledging its transfer-complete bits — snapshot then
    /// clear, never the other way, or the cause is lost to a race with the
    /// next event — and then dispatches on the endpoint's role.  A
    /// device-level cause re-initialises, suspends or resumes the device.
    /// Unknown causes and out-of-range endpoint slots are configuration
    /// faults.
    pub fn usb_isr(&mut self) -> (r: Result<(), UsbError>)
        requires
            old(self).wf(),
        ensures
            final(self).wf(),
            final(self).istr.0 == 0,
            ({
                let v = old(self).istr.0;
                let pre = USB { istr: ISTR(0u32), ..*old(self) };
                let post = *final(self);
                &&& (istr_is_unknown(v) ==> r is Err && r->Err_0 is UnknownInterrupt && post
                    == pre)
                &&& (istr_is_ep(v) ==> Self::isr_ep_rel(pre, post, istr_ep_id(v) as int, r))
                &&& (istr_is_reset(v) ==> r is Ok && Self::isr_reset_rel(pre, post))
                &&& (istr_is_suspend(v) ==> r is Ok && post == (USB {
                    cntr: CNTR(pre.cntr.0 | USB_CNTR_FSUSP | USB_CNTR_LP_MODE),
                    device_state: DeviceState::Suspended,
                    ..pre
                }))
                &&& (istr_is_wakeup(v) ==> r is Ok && post == (USB {
                    cntr: CNTR(pre.cntr.0 & !USB_CNTR_FSUSP & !USB_CNTR_LP_MODE),
                    device_state: DeviceState::Enabled,
                    ..pre
                }))
            }),
    {
        proof {
            let v0 = old(self).istr.0;
            assert(v0 & USB_ISTR_EP_ID_MASK < 16) by (bit_vector);
        }
        let interrupt = match self.istr.get_interrupt() {
            Ok(cause) => cause,
            Err(e) => {
                return Err(e);
            },
        };

        if interrupt < EP_NUM {
            // Snapshot the endpoint, then acknowledge its completion bits.
            let temp = self.ep[interrupt];
            let mut e = self.ep[interrupt];
            e.clear_rx_tx();
            self.ep[interrupt] = e;

            if interrupt == EP0 {
                if temp.epr_ctr_rx() {
                    if temp.epr_setup() {
                        self.ep0_receive = self.ep0_receive | USB_EP0_GOT_SETUP;
                    } else {
                        self.ep0_receive = self.ep0_receive | USB_EP0_GOT_RX_DATA;
                    }
                }
                if temp.epr_ctr_tx() {
                    self.ep0_receive = self.ep0_receive | USB_EP0_GOT_TX_ACK;
                }

                let handle: u32 = self.ep0_receive;
                let res = self.usb_ep0_handle(handle);
                proof {
                    let pre1 = USB { istr: ISTR(0u32), ..*old(self) };
                    let cleared = EP {
                        reg: spec_clear_rx_tx_reg(pre1.ep@[0].reg),
                        ..pre1.ep@[0]
                    };
                    let x = EP {
                        reg: spec_set_stat_rx_reg(cleared.reg, USB_EPR_STAT_RX_VALID),
                        buffer_addr: pre1.btable@[0].tx_addr,
                        ..cleared
                    };
                    lemma_ep_update_twice(pre1.ep@, 0, cleared, x);
                    lemma_ep_update_twice(pre1.ep@, 0, cleared, cleared);
                }
                return res;
            } else if interrupt == INT {
                if temp.epr_ctr_tx() {
                    let mut e1 = self.ep[INT];
                    e1.set_stat(0, USB_EPR_STAT_TX_NAK);
                    self.ep[INT] = e1;
                    proof {
                        let pre1 = USB { istr: ISTR(0u32), ..*old(self) };
                        let cleared = EP {
                            reg: spec_clear_rx_tx_reg(pre1.ep@[1].reg),
                            ..pre1.ep@[1]
                        };
                        let y = EP {
                            reg: spec_set_stat_rx_reg(cleared.reg, USB_EPR_STAT_TX_NAK),
                            ..cleared
                        };
                        lemma_ep_update_twice(pre1.ep@, 1, cleared, y);
                    }
                }
                return Ok(());
            } else if interrupt == OUT {
                if temp.epr_ctr_rx() {
                    let mut e2 = self.ep[OUT];
                    e2.set_pending(true);
                    self.ep[OUT] = e2;
                    proof {
                        let pre1 = USB { istr: ISTR(0u32), ..*old(self) };
                        let cleared = EP {
                            reg: spec_clear_rx_tx_reg(pre1.ep@[2].reg),
                            ..pre1.ep@[2]
                        };
                        let y = EP { pending: true, ..cleared };
                        lemma_ep_update_twice(pre1.ep@, 2, cleared, y);
                    }
                }
                return Ok(());
            } else {
                if temp.epr_ctr_tx() {
                    let mut e3 = self.ep[IN];
                    e3.set_pending(true);
                    self.ep[IN] = e3;
                    proof {
                        let pre1 = USB { istr: ISTR(0u32), ..*old(self) };
                        let cleared = EP {
                            reg: spec_clear_rx_tx_reg(pre1.ep@[3].reg),
                            ..pre1.ep@[3]
                        };
                        let y = EP { pending: true, ..cleared };
                        lemma_ep_update_twice(pre1.ep@, 3, cleared, y);
                    }
                }
                return Ok(());
            }
        }

        if interrupt == ISTR_RESET_FLAG {
            let r = self.ep_init();
            match r {
                Ok(()) => {
                    self.btable_init();
                    Ok(())
                },
                Err(e) => Err(e),
            }
        } else if interrupt == ISTR_SUSPEND_FLAG {
            self.usb_suspend();
            Ok(())
        } else if interrupt == ISTR_WAKEUP_FLAG {
            self.usb_wakeup();
            Ok(())
        } else {
            Err(UsbError::InvalidEndpoint)
        }
    }

    /// Work through one EP0 event mask.  The mask is consumed up front; a
    /// setup-received bit triggers the SETUP handling, while the
    /// data-received and tx-ack events have no follow-up wired up yet and
    /// say so.
    pub fn usb_ep0_handle(&mut self, handle: u32) -> (r: Result<(), UsbError>)
        requires
            old(self).wf(),
        ensures
            final(self).wf(),
            Self::ep0_handle_rel(*old(self), *final(self), old(self).ep@[0], handle),
            final(self).istr == old(self).istr,
            r is Ok <==> handle & (USB_EP0_GOT_RX_DATA | USB_EP0_GOT_TX_ACK) == 0,
            r is Err ==> r->Err_0 is NotImplemented,
    {
        self.ep0_receive = 0;

        if handle & USB_EP0_GOT_SETUP != 0 {
            self.usb_ep0_setup();
        } else {
            proof {
                lemma_ep_update_same(old(self).ep@, 0);
            }
        }
        if handle & (USB_EP0_GOT_RX_DATA | USB_EP0_GOT_TX_ACK) != 0 {
            // Buffer delivery to the request layer and the pending-address
            // commit after the ACK are not wired up yet.
            return Err(UsbError::NotImplemented);
        }
        Ok(())
    }

    /// Answer a SETUP packet on EP0: point EP0 at its transmit view, place
    /// the cached SETUP byte there, set the transmit count to 8, copy the
    /// delivered bytes from the receive staging buffer into EP0's packet
    /// memory, and re-arm the receive side to Valid to acknowledge the
    /// packet.
    pub fn usb_ep0_setup(&mut self)
        requires
            old(self).wf(),
        ensures
            final(self).wf(),
            Self::ep0_setup_rel(*old(self), *final(self), old(self).ep@[0]),
            final(self).istr == old(self).istr,
            final(self).ep0_receive == old(self).ep0_receive,
    {
        let tx_addr = self.btable[EP0].get_tx_addr();
        let mut e = self.ep[EP0];
        e.set_buffer(tx_addr);
        e.ep_set(&mut self.pma, self.usb_setup);
        let mut b = self.btable[EP0];
        b.set_tx_count(8);
        self.btable[EP0] = b;

        let len: u32 = self.btable[EP0].get_rx_count() & USB_BDT_COUNT_RX_COUNT_RX_MASK;

        e.send_data(&mut self.pma, &self.rx_buffer, len);

        e.set_stat_rx(USB_EPR_STAT_RX_VALID);
        self.ep[EP0] = e;

        proof {
            let pre = *old(self);
            let t = pre.btable@[0].tx_addr as int;
            if len == 0 {
                assert(self.pma.words() =~= pre.pma.words().update(
                    t / 4,
                    (pre.usb_setup as u32) << 24,
                ));
            } else {
                assert(spec_words_used(len as u32) >= 1) by (nonlinear_arith)
                    requires
                        len > 0,
                ;
            }
        }
    }

    // --------------------------------------------------------------
    // Device-level transitions
    // --------------------------------------------------------------

    /// Enter low-power suspend.
    pub fn usb_suspend(&mut self)
        ensures
            *final(self) == (USB {
                cntr: CNTR(old(self).cntr.0 | USB_CNTR_FSUSP | USB_CNTR_LP_MODE),
                device_state: DeviceState::Suspended,
                ..*old(self)
            }),
    {
        self.cntr.suspend_device();
        self.cntr.low_power_mode();
        self.device_state = DeviceState::Suspended;
    }

    /// Resume from suspend.
    pub fn usb_wakeup(&mut self)
        ensures
            *final(self) == (USB {
                cntr: CNTR(old(self).cntr.0 & !USB_CNTR_FSUSP & !USB_CNTR_LP_MODE),
                device_state: DeviceState::Enabled,
                ..*old(self)
            }),
    {
        self.cntr.resume_device();
        self.device_state = DeviceState::Enabled;
    }

    // --------------------------------------------------------------
    // The byte-stream interface over the staging buffers
    // --------------------------------------------------------------

    /// Append one character's byte to the transmit staging buffer; when the
    /// buffer reaches a full packet it is flushed to the bulk IN endpoint
    /// and starts over.
    pub fn usb_putchar(&mut self, c: char)
        requires
            old(self).wf(),
            old(self).tx_count < MAX_BUF_SIZE,
        ensures
            final(self).wf(),
            ({
                let pre = *old(self);
                let post = *final(self);
                let b = (c as u32) as u8;
                &&& post.tx_buffer@ == pre.tx_buffer@.update(pre.tx_count as int, b)
                &&& (pre.tx_count + 1 < MAX_BUF_SIZE ==> post.tx_count == pre.tx_count + 1
                    && post.ep@ == pre.ep@ && post.pma.words() == pre.pma.words())
                &&& (pre.tx_count + 1 == MAX_BUF_SIZE ==> post.tx_count == 0
                    && post.ep@ == pre.ep@.update(IN as int, EP {
                    reg: spec_set_stat_tx_reg(pre.ep@[IN as int].reg, USB_EPR_STAT_TX_VALID),
                    pending: true,
                    ..pre.ep@[IN as int]
                }))
                &&& post.rx_buffer@ == pre.rx_buffer@
                &&& post.rx_count == pre.rx_count
                &&& post.cntr == pre.cntr
                &&& post.istr == pre.istr
                &&& post.bcdr == pre.bcdr
                &&& post.btable@ == pre.btable@
                &&& post.ep0_receive == pre.ep0_receive
                &&& post.usb_setup == pre.usb_setup
                &&& post.device_state == pre.device_state
            }),
    {
        let b: u8 = #[verifier::truncate] ((c as u32) as u8);
        let idx = self.tx_count as usize;
        self.tx_buffer[idx] = b;
        self.tx_count += 1;

        if self.tx_count == MAX_BUF_SIZE {
            // The staging buffer holds a full packet: flush it out through
            // the bulk IN endpoint.
            self.usb_send_data(IN);
            self.tx_count = 0;
        }
    }

    /// Take the most recently staged received byte, if any.
    pub fn usb_pollchar(&mut self) -> (r: Option<u8>)
        requires
            old(self).wf(),
        ensures
            final(self).wf(),
            old(self).rx_count == 0 ==> r is None && *final(self) == *old(self),
            old(self).rx_count > 0 ==> {
                &&& r == Some(old(self).rx_buffer@[old(self).rx_count - 1])
                &&& *final(self) == (USB {
                    rx_count: (old(self).rx_count - 1) as u32,
                    ..*old(self)
                })
            },
    {
        if self.rx_count == 0 {
            return None;
        }
        self.rx_count -= 1;
        let c = self.rx_buffer[self.rx_count as usize];
        Some(c)
    }

    /// Take one received byte.  Rather than spinning until a byte arrives,
    /// the wait is surfaced to the caller, who retries after the interrupt
    /// path marks new data, so the wait can be cancelled at any point.
    pub fn usb_getchar(&mut self) -> (r: Option<u8>)
        requires
            old(self).wf(),
        ensures
            final(self).wf(),
            old(self).rx_count == 0 ==> r is None && *final(self) == *old(self),
            old(self).rx_count > 0 ==> {
                &&& r == Some(old(self).rx_buffer@[old(self).rx_count - 1])
                &&& *final(self) == (USB {
                    rx_count: (old(self).rx_count - 1) as u32,
                    ..*old(self)
                })
            },
    {
        self.usb_pollchar()
    }
}

/// Build the controller.
pub fn usb() -> (r: USB)
    ensures
        r.wf(),
        r.device_state is Uninitialized,
{
    USB::usb()
}

} // verus!
