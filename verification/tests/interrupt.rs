use cortex_m0::interrupt::{Hardware, Priority, RawNvic, nvic};
use cortex_m0::interrupt::enable::{ISER, ICER};
use cortex_m0::interrupt::priority::IPR;

#[test]
fn test_iser_enable_interrupt() {
    let mut iser = ISER(0);

    iser.enable_interrupt(Hardware::Flash);
    assert_eq!(iser.0, 0b1 << 3);
}

#[test]
fn test_iser_interrupt_is_enabled() {
    let iser = ISER(0b1 << 5);

    assert!(iser.interrupt_is_enabled(Hardware::Exti01));
    assert!(!iser.interrupt_is_enabled(Hardware::Usb));
}

#[test]
fn test_icer_disable_interrupt() {
    let mut icer = ICER(0);

    icer.disable_interrupt(Hardware::Flash);
    assert_eq!(icer.0, 0b1 << 3);
}

#[test]
fn test_ipr_set_priority() {
    let mut ipr = IPR(0);

    ipr.set_priority(Priority::High, 1);
    assert_eq!(ipr.0, 0b01 << 14);
}

#[test]
fn test_ipr_get_priority() {
    let ipr = IPR(0b11 << 6);

    assert_eq!(ipr.get_priority(0), Priority::Lowest);
}

#[test]
fn test_nvic_enable_and_prioritise_usb_line() {
    let mut controller: RawNvic = nvic();

    controller.enable_interrupt(Hardware::Usb);
    assert!(controller.interrupt_is_enabled(Hardware::Usb));
    assert_eq!(controller.iser.0, 0b1u32 << 31);

    controller.set_priority(Priority::High, Hardware::Usb);
    assert_eq!(controller.get_priority(Hardware::Usb), Priority::High);
    // Line 31 lives in priority register 7, byte 3.
    assert_eq!(controller.ipr[7].0, 0b01 << 30);

    controller.set_pending(Hardware::Usb);
    assert!(controller.interrupt_is_pending(Hardware::Usb));
    controller.clear_pending(Hardware::Usb);
    assert_eq!(controller.icpr.0, 0b1u32 << 31);

    controller.disable_interrupt(Hardware::Usb);
    assert_eq!(controller.icer.0, 0b1u32 << 31);
}
