use cortex_m0::gpio::{Mode, MODER, Type, OTYPER, Speed, OSPEEDR, Pull, PUPDR, AlternateFunction,
    AFRL, AFRH, BSRR};

#[test]
fn test_moder_set_mode() {
    let mut moder = MODER(0);

    moder.set_mode(Mode::Analog, 6);
    assert_eq!(moder.0, 0b11 << 12);
}

#[test]
fn test_moder_set_multiple_ports_doesnt_clear_setting() {
    let mut moder = MODER(0);

    moder.set_mode(Mode::Analog, 8);
    assert_eq!(moder.0, 0b11 << 16);

    moder.set_mode(Mode::Output, 4);
    assert_eq!(moder.0, 0b11 << 16 | 0b01 << 8);
}

#[test]
fn test_moder_get_mode() {
    let moder = MODER(0b11 << 14);

    assert_eq!(moder.get_mode(7), Mode::Analog);
}

#[test]
fn test_otyper_set_type() {
    let mut otyper = OTYPER(0);

    otyper.set_type(Type::OpenDrain, 4);
    assert_eq!(otyper.0, 0b1 << 4);
}

#[test]
fn test_otyper_set_type_multiple_ports_doesnt_clear_settings() {
    let mut otyper = OTYPER(0);

    otyper.set_type(Type::OpenDrain, 5);
    assert_eq!(otyper.0, 0b1 << 5);

    otyper.set_type(Type::OpenDrain, 7);
    assert_eq!(otyper.0, 0b1 << 5 | 0b1 << 7);
}

#[test]
fn test_otyper_get_type() {
    let otyper = OTYPER(0b1 << 9);

    assert_eq!(otyper.get_type(9), Type::OpenDrain);
}

#[test]
fn test_ospeedr_set_speed() {
    let mut ospeedr = OSPEEDR(0);

    ospeedr.set_speed(Speed::High, 4);
    assert_eq!(ospeedr.0, 0b11 << 8);
}

#[test]
fn test_ospeedr_set_multiple_ports_doesnt_clear_settings() {
    let mut ospeedr = OSPEEDR(0);

    ospeedr.set_speed(Speed::High, 8);
    assert_eq!(ospeedr.0, 0b11 << 16);

    ospeedr.set_speed(Speed::Medium, 12);
    assert_eq!(ospeedr.0, 0b11 << 16 | 0b01 << 24);
}

#[test]
fn test_ospeedr_get_speed() {
    let ospeedr = OSPEEDR(0b11 << 18);

    assert_eq!(ospeedr.get_speed(9), Speed::High);
}

#[test]
fn test_pupdr_set_pull() {
    let mut pupdr = PUPDR(0);

    pupdr.set_pull(Pull::Up, 4);
    assert_eq!(pupdr.0, 0b01 << 8);
}

#[test]
fn test_pupdr_set_pull_multiple_ports_doesnt_clear_settings() {
    let mut pupdr = PUPDR(0);

    pupdr.set_pull(Pull::Down, 5);
    assert_eq!(pupdr.0, 0b10 << 10);

    pupdr.set_pull(Pull::Up, 6);
    assert_eq!(pupdr.0, 0b10 << 10 | 0b01 << 12);
}

#[test]
fn test_pupdr_get_pull() {
    let pupdr = PUPDR(0b10 << 6);

    assert_eq!(pupdr.get_pull(3), Pull::Down);
}

#[test]
fn test_afrh_set_function() {
    let mut afrh = AFRH(0);
    afrh.set_function(AlternateFunction::Five, 8);

    assert_eq!(afrh.0, 0x5);
}

#[test]
fn test_afrl_set_function() {
    let mut afrl = AFRL(0);
    afrl.set_function(AlternateFunction::Two, 3);

    assert_eq!(afrl.0, 0x2000);
}

#[test]
fn test_afrl_get_function_reads_back_what_was_set() {
    let mut afrl = AFRL(0);
    afrl.set_function(AlternateFunction::Seven, 2);

    assert_eq!(afrl.get_function(2), AlternateFunction::Seven);
}

#[test]
fn test_afrh_get_function_reads_back_what_was_set() {
    let mut afrh = AFRH(0);
    afrh.set_function(AlternateFunction::Three, 12);

    assert_eq!(afrh.get_function(12), AlternateFunction::Three);
}

#[test]
fn test_bsrr_set_8_yields_binary_256() {
    let mut bsrr = BSRR(0);
    bsrr.set(8);
    assert_eq!(bsrr.0, 0x100);
}

#[test]
fn test_bsrr_set_3_yields_binary_8() {
    let mut bsrr = BSRR(0);
    bsrr.set(3);
    assert_eq!(bsrr.0, 0x08);
}

#[test]
fn test_bsrr_reset_port_0_yields_correct_value() {
    let mut bsrr = BSRR(0);
    bsrr.reset(0);
    assert_eq!(bsrr.0, 0x10000);
}

#[test]
fn test_bsrr_reset_port_15_yields_correct_value() {
    let mut bsrr = BSRR(0);
    bsrr.reset(15);
    assert_eq!(bsrr.0, 0x8000_0000);
}
