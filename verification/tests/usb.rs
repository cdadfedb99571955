use cortex_m0::usb::bcdr::BCDR;
use cortex_m0::usb::istr::ISTR;
use cortex_m0::usb::sram::{SRAM, USBSize};
use cortex_m0::usb::btable::BTABLE;
use cortex_m0::usb::cntr::CNTR;
use cortex_m0::usb::epnr::{EP, USBType};
use cortex_m0::usb::pma::PacketMemory;
use cortex_m0::usb::UsbError;
use cortex_m0::usb::defs::USB_BCDR_DPPU;

#[test]
fn test_bcdr_enable() {
    let mut bcdr = BCDR(0);
    bcdr.enable_usb_pullup();
    assert_eq!(bcdr.0, 1 << USB_BCDR_DPPU);
}

#[test]
fn test_bcdr_disable() {
    let mut bcdr = BCDR(0);
    bcdr.disable_usb_pullup();
    assert_eq!(bcdr.0, 0 << USB_BCDR_DPPU);
}

#[test]
fn test_istr_clear() {
    let mut istr = ISTR(0);
    istr.clear();
    assert_eq!(istr.0, 0);
}

#[test]
fn test_istr_get_interrupt_decodes_and_clears() {
    let mut istr = ISTR((1 << 15) | 3);
    assert_eq!(istr.get_interrupt(), Ok(3));
    assert_eq!(istr.0, 0);

    let mut istr = ISTR(1 << 10);
    assert_eq!(istr.get_interrupt(), Ok(19));

    let mut istr = ISTR(1 << 11);
    assert_eq!(istr.get_interrupt(), Ok(20));

    let mut istr = ISTR(1 << 12);
    assert_eq!(istr.get_interrupt(), Ok(21));

    let mut istr = ISTR(0);
    assert_eq!(istr.get_interrupt(), Err(UsbError::UnknownInterrupt));
}

#[test]
fn test_cntr_suspend_and_resume_bits() {
    let mut cntr = CNTR(0);

    cntr.suspend_device();
    cntr.low_power_mode();
    assert_eq!(cntr.0, 0b1 << 3 | 0b1 << 2);

    cntr.resume_device();
    assert_eq!(cntr.0, 0);

    cntr.enable_interrupts();
    assert_eq!(cntr.0, 0b1 << 15 | 0b1 << 10 | 0b1 << 11 | 0b1 << 12);
}

// Allocator monotonicity: every address handed out lies one full buffer
// beyond the one before, so no address ever repeats.
#[test]
fn test_sram_allocation_addresses_are_monotonic() {
    let mut sram = SRAM::new(0x20);

    let a1 = sram.allocate_usb_space(USBSize::Control);
    let a2 = sram.allocate_usb_space(USBSize::Control);
    let a3 = sram.allocate_usb_space(USBSize::Interrupt);
    let a4 = sram.allocate_usb_space(USBSize::Bulk);
    let a5 = sram.allocate_usb_space(USBSize::Bulk);

    assert_eq!(a1, 0x20);
    assert_eq!(a2, a1 + 32);
    assert_eq!(a3, a2 + 32);
    assert_eq!(a4, a3 + 8);
    assert_eq!(a5, a4 + 64);
    assert!(a1 < a2 && a2 < a3 && a3 < a4 && a4 < a5);
}

#[test]
fn test_sram_btable_space_advances_position() {
    let mut sram = SRAM::new(0);

    let table = sram.allocate_btable_space();
    let first_buffer = sram.allocate_usb_space(USBSize::Control);
    assert_eq!(table, 0);
    assert_eq!(first_buffer, 64);
}

#[test]
fn test_btable_holds_its_fields() {
    let mut entry = BTABLE::new(0x20, 0x40, 0x8400, 0);

    assert_eq!(entry.get_rx_addr(), 0x20);
    assert_eq!(entry.get_tx_addr(), 0x40);
    assert_eq!(entry.get_rx_count(), 0x8400);
    assert_eq!(entry.get_tx_count(), 0);

    entry.set_rx_count(8);
    entry.set_tx_count(16);
    assert_eq!(entry.get_rx_count(), 8);
    assert_eq!(entry.get_tx_count(), 16);
    assert_eq!(entry.get_rx_addr(), 0x20);
}

// Endpoint init idempotence: a second init leaves the type code and the
// address field exactly where the first run put them.
#[test]
fn test_ep_init_twice_preserves_type_and_address() {
    let mut ep = EP::new(0, 0x20, 32, USBType::Control);

    assert_eq!(ep.init(), Ok(()));
    let first = ep.reg;
    // Control: type code 1, address 0, RX valid, TX NAK, both CTR clear.
    assert_eq!((first >> 9) & 3, 1);
    assert_eq!(first & 0xf, 0);
    assert_eq!((first >> 12) & 3, 3);
    assert_eq!((first >> 4) & 3, 2);
    assert_eq!((first >> 15) & 1, 0);
    assert_eq!((first >> 7) & 1, 0);

    assert_eq!(ep.init(), Ok(()));
    let second = ep.reg;
    assert_eq!((second >> 9) & 3, (first >> 9) & 3);
    assert_eq!(second & 0xf, first & 0xf);
}

#[test]
fn test_ep_init_rows_per_role() {
    let mut interrupt_ep = EP::new(1, 0x60, 8, USBType::Interrupt);
    assert_eq!(interrupt_ep.init(), Ok(()));
    assert_eq!((interrupt_ep.reg >> 9) & 3, 3);
    assert_eq!(interrupt_ep.reg & 0xf, 1);
    assert_eq!((interrupt_ep.reg >> 12) & 3, 0);
    assert_eq!((interrupt_ep.reg >> 4) & 3, 2);

    let mut out_ep = EP::new(2, 0x68, 64, USBType::Output);
    assert_eq!(out_ep.init(), Ok(()));
    assert_eq!((out_ep.reg >> 9) & 3, 0);
    assert_eq!(out_ep.reg & 0xf, 4);
    assert_eq!((out_ep.reg >> 12) & 3, 3);
    assert_eq!((out_ep.reg >> 4) & 3, 0);

    let mut in_ep = EP::new(3, 0xA8, 64, USBType::Input);
    assert_eq!(in_ep.init(), Ok(()));
    assert_eq!((in_ep.reg >> 9) & 3, 0);
    assert_eq!(in_ep.reg & 0xf, 5);
    assert_eq!((in_ep.reg >> 12) & 3, 0);
    assert_eq!((in_ep.reg >> 4) & 3, 2);
}

#[test]
fn test_ep_init_isochronous_is_unsupported() {
    let mut ep = EP::new(4, 0x100, 64, USBType::Isochronous);
    assert_eq!(ep.init(), Err(UsbError::UnsupportedEndpointType));
    assert_eq!(ep.reg, 0);
}

// Toggle-write correctness: whatever the field held, toggling toward a
// target lands exactly on the target, for every (current, target) pair.
#[test]
fn test_set_stat_toggle_lands_on_target_for_all_pairs() {
    for cur in 0u32..4 {
        for tgt in 0u32..4 {
            let mut ep = EP::new(3, 0xA8, 64, USBType::Input);
            ep.reg = cur << 4;
            ep.set_stat_tx(tgt);
            assert_eq!((ep.reg >> 4) & 3, tgt);

            let mut ep = EP::new(2, 0x68, 64, USBType::Output);
            ep.reg = cur << 12;
            ep.set_stat_rx(tgt);
            assert_eq!((ep.reg >> 12) & 3, tgt);
        }
    }
}

#[test]
fn test_set_stat_dispatches_on_role() {
    // Output and Control endpoints drive their transmit status.
    let mut out_ep = EP::new(2, 0x68, 64, USBType::Output);
    out_ep.set_stat(3, 1);
    assert_eq!((out_ep.reg >> 4) & 3, 3);
    assert_eq!((out_ep.reg >> 12) & 3, 0);

    // Input and Interrupt endpoints drive their receive status.
    let mut int_ep = EP::new(1, 0x60, 8, USBType::Interrupt);
    int_ep.set_stat(3, 2);
    assert_eq!((int_ep.reg >> 12) & 3, 2);
    assert_eq!((int_ep.reg >> 4) & 3, 0);
}

#[test]
fn test_set_stat_preserves_type_and_address() {
    let mut ep = EP::new(0, 0x20, 32, USBType::Control);
    assert_eq!(ep.init(), Ok(()));
    let before = ep.reg;

    ep.set_stat_rx(2);
    assert_eq!((ep.reg >> 9) & 3, (before >> 9) & 3);
    assert_eq!(ep.reg & 0xf, before & 0xf);
    assert_eq!((ep.reg >> 4) & 3, (before >> 4) & 3);
}

#[test]
fn test_clear_rx_tx_drops_only_the_completion_bits() {
    let mut ep = EP::new(0, 0x20, 32, USBType::Control);
    // CTR_RX | STAT_RX valid | SETUP | type control | CTR_TX | STAT_TX NAK
    ep.reg = (1 << 15) | (3 << 12) | (1 << 11) | (1 << 9) | (1 << 7) | (2 << 4);

    assert!(ep.epr_ctr_rx());
    assert!(ep.epr_ctr_tx());
    assert!(ep.epr_setup());

    ep.clear_rx_tx();
    assert!(!ep.epr_ctr_rx());
    assert!(!ep.epr_ctr_tx());
    // Everything else stands.
    assert!(ep.epr_setup());
    assert_eq!((ep.reg >> 12) & 3, 3);
    assert_eq!((ep.reg >> 9) & 3, 1);
    assert_eq!((ep.reg >> 4) & 3, 2);
}

#[test]
fn test_is_busy_by_role() {
    let mut out_ep = EP::new(2, 0x68, 64, USBType::Output);
    out_ep.reg = 3 << 4;
    assert!(out_ep.is_busy());
    out_ep.reg = 2 << 4;
    assert!(!out_ep.is_busy());

    let mut in_ep = EP::new(3, 0xA8, 64, USBType::Input);
    in_ep.reg = 3 << 12;
    assert!(in_ep.is_busy());
    in_ep.reg = 0;
    assert!(!in_ep.is_busy());
}

#[test]
fn test_ep_set_places_byte_in_top_of_first_word() {
    let ep = EP::new(0, 0x40, 32, USBType::Control);
    let mut mem = PacketMemory::new();

    ep.ep_set(&mut mem, 0xAB);
    assert_eq!(mem.read_word(0x10), 0xAB00_0000);
}

// send_data followed by receive_data over the same buffer reproduces the
// original bytes exactly, for every length from empty to a full packet.
#[test]
fn test_send_receive_round_trip_all_lengths() {
    let ep = EP::new(2, 0x68, 64, USBType::Output);
    let source: Vec<u8> = (0..64u32).map(|i| (i * 3 + 7) as u8).collect();

    for len in 0..=64u32 {
        let mut mem = PacketMemory::new();
        ep.send_data(&mut mem, &source, len);

        let mut dest: Vec<u8> = vec![0u8; 64];
        ep.receive_data(&mem, &mut dest, len);

        assert_eq!(&dest[..len as usize], &source[..len as usize]);
        // Bytes beyond the requested count are untouched.
        for i in len as usize..64 {
            assert_eq!(dest[i], 0);
        }
    }
}

#[test]
fn test_send_data_packs_words_little_endian() {
    let ep = EP::new(2, 0x68, 64, USBType::Output);
    let mut mem = PacketMemory::new();
    let mut source: Vec<u8> = vec![0u8; 64];
    source[0] = 0x11;
    source[1] = 0x22;
    source[2] = 0x33;
    source[3] = 0x44;
    source[4] = 0x55;

    ep.send_data(&mut mem, &source, 5);
    assert_eq!(mem.read_word(0x68 / 4), 0x4433_2211);
    assert_eq!(mem.read_word(0x68 / 4 + 1), 0x0000_0055);
}

#[test]
fn test_send_data_leaves_neighbouring_words_alone() {
    let ep = EP::new(1, 0x60, 8, USBType::Interrupt);
    let mut mem = PacketMemory::new();
    let source: Vec<u8> = vec![0xFFu8; 64];

    ep.send_data(&mut mem, &source, 8);
    // The interrupt endpoint's buffer covers words 0x18 and 0x19 only.
    assert_eq!(mem.read_word(0x17), 0);
    assert_eq!(mem.read_word(0x18), 0xFFFF_FFFF);
    assert_eq!(mem.read_word(0x19), 0xFFFF_FFFF);
    assert_eq!(mem.read_word(0x1A), 0);
}

#[test]
fn test_ep_soft_flags() {
    let mut ep = EP::new(3, 0xA8, 64, USBType::Input);

    assert!(!ep.get_pending());
    assert!(!ep.get_flushed());
    ep.set_pending(true);
    ep.set_flushed(true);
    assert!(ep.get_pending());
    assert!(ep.get_flushed());

    assert_eq!(ep.get_buffer_addr(), 0xA8);
    ep.set_buffer(0x40);
    assert_eq!(ep.get_buffer_addr(), 0x40);
}
