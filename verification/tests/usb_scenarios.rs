//! Controller-level scenarios: the hardware's half of the interface is
//! played by writing the interrupt status word, the endpoint registers'
//! completion bits and the descriptor counts, exactly as the USB engine
//! would, before driving the service routine.

use cortex_m0::usb::{usb, UsbError, DeviceState};
use cortex_m0::usb::defs::RX_COUNT_SIZE;
use cortex_m0::rcc::{rcc, Peripheral};
use cortex_m0::interrupt::nvic;

const ISTR_CTR: u32 = 1 << 15;
const ISTR_RESET: u32 = 1 << 10;
const ISTR_SUSP: u32 = 1 << 11;
const ISTR_WKUP: u32 = 1 << 12;
const EPR_CTR_RX: u32 = 1 << 15;
const EPR_CTR_TX: u32 = 1 << 7;
const EPR_SETUP: u32 = 1 << 11;

fn stat_rx(reg: u32) -> u32 {
    (reg >> 12) & 3
}

fn stat_tx(reg: u32) -> u32 {
    (reg >> 4) & 3
}

#[test]
fn controller_construction_matches_the_fixed_layout() {
    let dev = usb();

    assert_eq!(dev.device_state, DeviceState::Uninitialized);
    assert_eq!(dev.ep[0].buffer_addr, 0x20);
    assert_eq!(dev.btable[0].rx_addr, 0x20);
    assert_eq!(dev.btable[0].tx_addr, 0x40);
    assert_eq!(dev.ep[1].buffer_addr, 0x60);
    assert_eq!(dev.ep[2].buffer_addr, 0x68);
    assert_eq!(dev.ep[3].buffer_addr, 0xA8);
    assert_eq!(dev.btable[0].rx_count, RX_COUNT_SIZE);
    assert_eq!(dev.btable[2].rx_count, RX_COUNT_SIZE);
    assert_eq!(dev.btable[1].rx_count, 0);
    assert_eq!(dev.btable[3].rx_count, 0);
}

#[test]
fn usb_init_enables_the_device() {
    let mut dev = usb();
    let mut clocks = rcc();
    let mut lines = nvic();

    assert_eq!(dev.usb_init(&mut clocks, &mut lines), Ok(()));

    assert_eq!(dev.device_state, DeviceState::Enabled);
    // Interrupt causes unmasked, pull-up raised, status clear.
    assert_eq!(dev.cntr.0, 1 << 15 | 1 << 10 | 1 << 11 | 1 << 12);
    assert_ne!(dev.bcdr.0 & (1 << 15), 0);
    assert_eq!(dev.istr.0, 0);
    // Every endpoint initialised for its role.
    assert_eq!(stat_rx(dev.ep[0].reg), 3);
    assert_eq!(stat_tx(dev.ep[0].reg), 2);
    assert_eq!(stat_rx(dev.ep[2].reg), 3);
    assert_eq!(stat_tx(dev.ep[3].reg), 2);
    // The collaborators saw their side of the bring-up.
    assert!(clocks.peripheral_is_enabled(Peripheral::USB));
    assert!(clocks.peripheral_is_enabled(Peripheral::SysCfgComp));
    assert_eq!(lines.iser.0, 1 << 31);
}

#[test]
fn usb_disable_tears_the_device_down() {
    let mut dev = usb();
    let mut clocks = rcc();
    let mut lines = nvic();

    assert_eq!(dev.usb_init(&mut clocks, &mut lines), Ok(()));
    dev.usb_disable(&mut clocks);

    assert_eq!(dev.device_state, DeviceState::Uninitialized);
    assert_eq!(dev.istr.0, 0);
    // Pull-up dropped, powerdown and low-power set.
    assert_eq!(dev.bcdr.0 & (1 << 15), 0);
    assert_ne!(dev.cntr.0 & (1 << 1), 0);
    assert_ne!(dev.cntr.0 & (1 << 2), 0);
    assert!(!clocks.peripheral_is_enabled(Peripheral::USB));
}

// Control transfer SETUP: the host's SETUP token leaves EP0's completion
// and SETUP bits standing; the service routine answers by staging the
// reply and re-arming EP0's receive side.
#[test]
fn control_transfer_setup_scenario() {
    let mut dev = usb();
    let mut clocks = rcc();
    let mut lines = nvic();
    assert_eq!(dev.usb_init(&mut clocks, &mut lines), Ok(()));

    let other_before = (dev.ep[1], dev.ep[2], dev.ep[3]);

    // The engine completed a SETUP reception on EP0: completion and SETUP
    // bits rise, the receive side fell to NAK, and the descriptor holds
    // the received byte count.
    dev.ep[0].reg = (dev.ep[0].reg & !(3 << 12)) | (2 << 12) | EPR_CTR_RX | EPR_SETUP;
    dev.btable[0].rx_count = RX_COUNT_SIZE | 8;
    dev.istr.0 = ISTR_CTR | 0;

    assert_eq!(dev.usb_isr(), Ok(()));

    // The event mask was consumed, the reply staged and RX re-armed.
    assert_eq!(dev.ep0_receive, 0);
    assert_eq!(dev.btable[0].tx_count, 8);
    assert_eq!(stat_rx(dev.ep[0].reg), 3);
    // EP0 now looks at its transmit view.
    assert_eq!(dev.ep[0].buffer_addr, dev.btable[0].tx_addr);
    // The completion bits were acknowledged.
    assert_eq!(dev.ep[0].reg & EPR_CTR_RX, 0);
    // No other endpoint's state changed.
    assert_eq!(format!("{:?}", other_before.0), format!("{:?}", dev.ep[1]));
    assert_eq!(format!("{:?}", other_before.1), format!("{:?}", dev.ep[2]));
    assert_eq!(format!("{:?}", other_before.2), format!("{:?}", dev.ep[3]));
}

// Bulk OUT arrival: a full 64-byte packet lands on the Output endpoint;
// the routine acknowledges the completion bits and marks the transfer
// pending for the consumer.
#[test]
fn bulk_out_arrival_scenario() {
    let mut dev = usb();
    let mut clocks = rcc();
    let mut lines = nvic();
    assert_eq!(dev.usb_init(&mut clocks, &mut lines), Ok(()));

    let ep0_before = dev.ep[0];

    dev.ep[2].reg |= EPR_CTR_RX;
    dev.btable[2].rx_count = RX_COUNT_SIZE | 64;
    dev.istr.0 = ISTR_CTR | 2;

    assert_eq!(dev.usb_isr(), Ok(()));

    assert!(dev.ep[2].get_pending());
    assert_eq!(dev.ep[2].reg & EPR_CTR_RX, 0);
    // The descriptor reports 64 bytes under the count mask.
    assert_eq!(dev.btable[2].rx_count & 0x1ff, 64);
    // No other endpoint's state changed.
    assert_eq!(format!("{:?}", ep0_before), format!("{:?}", dev.ep[0]));
    assert!(!dev.ep[1].get_pending());
    assert!(!dev.ep[3].get_pending());
}

// Suspend then resume: the suspend cause drops the controller into
// low-power suspend; the wakeup cause brings it back, and neither touches
// any endpoint.
#[test]
fn suspend_resume_scenario() {
    let mut dev = usb();
    let mut clocks = rcc();
    let mut lines = nvic();
    assert_eq!(dev.usb_init(&mut clocks, &mut lines), Ok(()));

    let eps_before = (dev.ep[0], dev.ep[1], dev.ep[2], dev.ep[3]);

    dev.istr.0 = ISTR_SUSP;
    assert_eq!(dev.usb_isr(), Ok(()));
    assert_eq!(dev.device_state, DeviceState::Suspended);
    assert_ne!(dev.cntr.0 & (1 << 3), 0);
    assert_ne!(dev.cntr.0 & (1 << 2), 0);

    dev.istr.0 = ISTR_WKUP;
    assert_eq!(dev.usb_isr(), Ok(()));
    assert_eq!(dev.device_state, DeviceState::Enabled);
    assert_eq!(dev.cntr.0 & (1 << 3), 0);
    assert_eq!(dev.cntr.0 & (1 << 2), 0);

    assert_eq!(format!("{:?}", eps_before.0), format!("{:?}", dev.ep[0]));
    assert_eq!(format!("{:?}", eps_before.1), format!("{:?}", dev.ep[1]));
    assert_eq!(format!("{:?}", eps_before.2), format!("{:?}", dev.ep[2]));
    assert_eq!(format!("{:?}", eps_before.3), format!("{:?}", dev.ep[3]));
}

// Interrupt endpoint: a completed transmit re-arms its status field to
// NAK, per the endpoint-role dispatch.
#[test]
fn interrupt_endpoint_tx_complete_rearms_to_nak() {
    let mut dev = usb();
    let mut clocks = rcc();
    let mut lines = nvic();
    assert_eq!(dev.usb_init(&mut clocks, &mut lines), Ok(()));

    dev.ep[1].reg |= EPR_CTR_TX;
    dev.istr.0 = ISTR_CTR | 1;

    assert_eq!(dev.usb_isr(), Ok(()));
    assert_eq!(dev.ep[1].reg & EPR_CTR_TX, 0);
    // The interrupt endpoint's status field reads NAK.
    assert_eq!(stat_rx(dev.ep[1].reg), 2);
    assert!(!dev.ep[1].get_pending());
}

// Bulk IN endpoint: a completed transmit marks the endpoint pending so a
// blocked producer can be woken.
#[test]
fn bulk_in_tx_complete_marks_pending() {
    let mut dev = usb();
    let mut clocks = rcc();
    let mut lines = nvic();
    assert_eq!(dev.usb_init(&mut clocks, &mut lines), Ok(()));

    dev.ep[3].reg |= EPR_CTR_TX;
    dev.istr.0 = ISTR_CTR | 3;

    assert_eq!(dev.usb_isr(), Ok(()));
    assert!(dev.ep[3].get_pending());
    assert_eq!(dev.ep[3].reg & EPR_CTR_TX, 0);
}

// Bus reset: every endpoint is re-initialised for its role and EP0's
// descriptor counts fall to zero.
#[test]
fn bus_reset_reinitialises_endpoints() {
    let mut dev = usb();
    let mut clocks = rcc();
    let mut lines = nvic();
    assert_eq!(dev.usb_init(&mut clocks, &mut lines), Ok(()));

    dev.btable[0].tx_count = 8;
    dev.istr.0 = ISTR_RESET;

    assert_eq!(dev.usb_isr(), Ok(()));
    assert_eq!(dev.btable[0].rx_count, 0);
    assert_eq!(dev.btable[0].tx_count, 0);
    assert_eq!(stat_rx(dev.ep[0].reg), 3);
    assert_eq!(stat_tx(dev.ep[0].reg), 2);
    assert_eq!(stat_rx(dev.ep[2].reg), 3);
    assert_eq!(stat_tx(dev.ep[2].reg), 0);
}

#[test]
fn unknown_interrupt_cause_is_an_error() {
    let mut dev = usb();

    dev.istr.0 = 0;
    assert_eq!(dev.usb_isr(), Err(UsbError::UnknownInterrupt));
}

#[test]
fn out_of_range_endpoint_is_an_error() {
    let mut dev = usb();

    dev.istr.0 = ISTR_CTR | 7;
    assert_eq!(dev.usb_isr(), Err(UsbError::InvalidEndpoint));
    // The cause was still consumed.
    assert_eq!(dev.istr.0, 0);
}

#[test]
fn ep0_tx_ack_follow_up_is_not_implemented() {
    let mut dev = usb();

    dev.ep[0].reg |= EPR_CTR_TX;
    dev.istr.0 = ISTR_CTR | 0;

    assert_eq!(dev.usb_isr(), Err(UsbError::NotImplemented));
    // The event mask was still consumed.
    assert_eq!(dev.ep0_receive, 0);
}

#[test]
fn ep0_rx_data_follow_up_is_not_implemented() {
    let mut dev = usb();

    // Completed receive without the SETUP bit: plain data arrival.
    dev.ep[0].reg |= EPR_CTR_RX;
    dev.istr.0 = ISTR_CTR | 0;

    assert_eq!(dev.usb_isr(), Err(UsbError::NotImplemented));
    assert_eq!(dev.ep0_receive, 0);
}

// The byte-stream round trip through the controller: bytes staged in the
// transmit buffer land in the endpoint's packet memory, and the receive
// path hands them back through the staging buffer.
#[test]
fn send_and_receive_through_the_staging_buffers() {
    let mut dev = usb();

    for i in 0..10usize {
        dev.tx_buffer[i] = (i as u8) * 7 + 1;
    }
    dev.tx_count = 10;
    dev.usb_send_data(3);

    assert!(dev.ep[3].get_pending());
    // A short packet marks the end of the transfer.
    assert!(dev.ep[3].get_flushed());
    assert_eq!(stat_tx(dev.ep[3].reg), 3);

    // The engine reports ten bytes delivered into the same buffer.
    dev.btable[3].rx_count = RX_COUNT_SIZE | 10;
    dev.usb_recv_data(3);

    assert_eq!(dev.rx_count, 10);
    for i in 0..10usize {
        assert_eq!(dev.rx_buffer[i], (i as u8) * 7 + 1);
    }

    // The byte-stream interface pops the staged bytes, most recent first.
    assert_eq!(dev.usb_pollchar(), Some(9 * 7 + 1));
    assert_eq!(dev.usb_getchar(), Some(8 * 7 + 1));
    assert_eq!(dev.rx_count, 8);
}

#[test]
fn pollchar_on_empty_buffer_reports_nothing() {
    let mut dev = usb();

    assert_eq!(dev.usb_pollchar(), None);
    assert_eq!(dev.usb_getchar(), None);
}

#[test]
fn putchar_stages_bytes_and_flushes_a_full_packet() {
    let mut dev = usb();

    dev.usb_putchar('a');
    assert_eq!(dev.tx_buffer[0], 97);
    assert_eq!(dev.tx_count, 1);

    for _ in 0..63 {
        dev.usb_putchar('b');
    }
    // The sixty-fourth byte filled the packet: it was flushed out through
    // the bulk IN endpoint and the staging buffer starts over.
    assert_eq!(dev.tx_count, 0);
    assert!(dev.ep[3].get_pending());
    assert_eq!(stat_tx(dev.ep[3].reg), 3);
    // The packet that went out holds the staged bytes.
    assert_eq!(dev.pma.read_byte(0xA8), 97);
    assert_eq!(dev.pma.read_byte(0xA9), 98);
}

// Dispatch edges: an endpoint cause whose completion bit does not concern
// the role leaves the endpoint's soft state alone.
#[test]
fn out_endpoint_without_rx_complete_stays_idle() {
    let mut dev = usb();

    // A transmit completion on the Output endpoint is acknowledged but
    // marks nothing pending.
    dev.ep[2].reg |= EPR_CTR_TX;
    dev.istr.0 = ISTR_CTR | 2;

    assert_eq!(dev.usb_isr(), Ok(()));
    assert!(!dev.ep[2].get_pending());
    assert_eq!(dev.ep[2].reg & EPR_CTR_TX, 0);
}

#[test]
fn interrupt_endpoint_without_tx_complete_keeps_its_status() {
    let mut dev = usb();
    let mut clocks = rcc();
    let mut lines = nvic();
    assert_eq!(dev.usb_init(&mut clocks, &mut lines), Ok(()));

    let before = dev.ep[1].reg;
    dev.ep[1].reg |= EPR_CTR_RX;
    dev.istr.0 = ISTR_CTR | 1;

    assert_eq!(dev.usb_isr(), Ok(()));
    // Only the completion bits were acknowledged; the status fields stand.
    assert_eq!(dev.ep[1].reg, before & !(EPR_CTR_RX | EPR_CTR_TX));
}

// Event bits already accumulated in the receive mask are consumed together
// with the new cause.
#[test]
fn ep0_mask_accumulates_before_handling() {
    let mut dev = usb();

    dev.ep0_receive = 4;  // a transmit acknowledgement is still unconsumed
    dev.ep[0].reg |= EPR_CTR_RX | EPR_SETUP;
    dev.btable[0].rx_count = RX_COUNT_SIZE | 0;
    dev.istr.0 = ISTR_CTR | 0;

    // The setup half runs, but the unconsumed acknowledgement has no
    // follow-up wired up yet.
    assert_eq!(dev.usb_isr(), Err(UsbError::NotImplemented));
    assert_eq!(dev.ep0_receive, 0);
    assert_eq!(dev.btable[0].tx_count, 8);
}
