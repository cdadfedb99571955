use cortex_m0::usart::{ICR, TDR, BRR, BaudRate, RawUsart, Mode, Parity, WordLength, StopLength,
    DMAMode, HardwareFlowControl};

#[test]
fn test_icr_clear_ore() {
    let mut icr = ICR(0);
    icr.clear_ore();

    assert_eq!(icr.0, 0b1 << 3);
}

#[test]
fn test_icr_clear_tc() {
    let mut icr = ICR(0);
    icr.clear_tc();

    assert_eq!(icr.0, 0b1 << 6);
}

#[test]
fn test_tdr_has_ascii_value_of_97_on_store_of_char_a() {
    let mut tdr = TDR(0);
    tdr.store(b'a');
    assert_eq!(tdr.0, 97);
}

#[test]
fn test_tdr_has_ascii_value_of_98_on_last_store_of_char_b() {
    let mut tdr = TDR(0);
    tdr.store(b'i');
    tdr.store(b'z');
    tdr.store(b'b');
    assert_eq!(tdr.0, 98);
}

#[test]
fn test_brr_set_baud_rate_oversampling_sixteen() {
    let mut brr = BRR(0);

    // 48 MHz / 115200 baud programs a divisor of 416.
    brr.set_baud_rate(BaudRate::Hz115200, 48_000_000, false);
    assert_eq!(brr.0, 416);
}

#[test]
fn test_brr_set_baud_rate_oversampling_eight_halves_low_field() {
    let mut brr = BRR(0);

    // 8 MHz / 9600 baud gives 833 = 0x341; with oversampling by eight the
    // low field is halved in place: 0x340.
    brr.set_baud_rate(BaudRate::Hz9600, 8_000_000, true);
    assert_eq!(brr.0, 0x340);
}

#[test]
fn test_raw_usart_configuration_sequence() {
    let mut usart = RawUsart::new();

    usart.disable_usart();
    usart.set_word_length(WordLength::Eight);
    usart.set_dma_mode(DMAMode::All);
    usart.set_mode(Mode::All);
    usart.set_parity(Parity::Off);
    usart.set_hardware_flow_control(HardwareFlowControl::Off);
    usart.set_stop_bits(StopLength::One);
    usart.enable_receiver_not_empty_interrupt();
    usart.enable_transmit_interrupt();
    usart.enable_usart();

    assert!(usart.is_usart_enabled());
    // UE | RE | TE | RXNEIE | TXEIE
    assert_eq!(usart.cr1.0, 0b1 | 0b1 << 2 | 0b1 << 3 | 0b1 << 5 | 0b1 << 7);
    assert_eq!(usart.cr2.0, 0);
    // DMAR | DMAT
    assert_eq!(usart.cr3.0, 0b1 << 6 | 0b1 << 7);
}

#[test]
fn test_raw_usart_transmit_and_receive_bytes() {
    let mut usart = RawUsart::new();

    usart.transmit_byte(0xA5);
    assert_eq!(usart.tdr.0, 0xA5);

    usart.rdr.0 = 0x15A;
    assert_eq!(usart.load_byte(), 0x5A);
}

#[test]
fn test_raw_usart_status_flags() {
    let mut usart = RawUsart::new();

    assert!(!usart.is_rx_reg_full());
    assert!(!usart.is_transmission_complete());
    assert!(!usart.is_tx_reg_empty());

    usart.isr.0 = 0b1 << 5 | 0b1 << 6 | 0b1 << 7;
    assert!(usart.is_rx_reg_full());
    assert!(usart.is_transmission_complete());
    assert!(usart.is_tx_reg_empty());

    usart.clear_ore_flag();
    usart.clear_tc_flag();
    usart.clear_idle_flag();
    assert_eq!(usart.icr.0, 0b1 << 3 | 0b1 << 4 | 0b1 << 6);
}
