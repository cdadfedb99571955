use cortex_m0::rcc::{Clock, CR, CR2, CFGR, CFGR2, Peripheral, AHBENR, APBENR1, APBENR2, RawRCC,
    rcc};

#[test]
fn test_cr_set_clock_pll_on() {
    let mut cr = CR(0);

    cr.set_clock(true, Clock::PLL);
    assert_eq!(cr.0, 0b1 << 24);
}

#[test]
fn test_cr_set_clock_pll_off() {
    // PLL starts on
    let mut cr = CR(0b1 << 24);

    cr.set_clock(false, Clock::PLL);
    assert_eq!(cr.0, 0);
}

#[test]
fn test_cr_set_clock_on_multiple_clocks_doesnt_change_other_clocks() {
    let mut cr = CR(0);

    cr.set_clock(true, Clock::PLL);
    assert_eq!(cr.0, 0b1 << 24);

    cr.set_clock(true, Clock::HSI);
    assert_eq!(cr.0, 0b1 | 0b1 << 24);
}

#[test]
fn test_cr_set_clock_off_multiple_clocks_doesnt_change_other_clocks() {
    // HSI and PLL start on
    let mut cr = CR(0b1 | 0b1 << 24);

    cr.set_clock(false, Clock::HSI);
    assert_eq!(cr.0, 0b1 << 24);

    cr.set_clock(false, Clock::PLL);
    assert_eq!(cr.0, 0);
}

#[test]
fn test_cr_clock_is_on_all_clocks_off() {
    let cr = CR(0);

    assert_eq!(cr.clock_is_on(Clock::PLL), false);
    assert_eq!(cr.clock_is_on(Clock::HSI), false);
    assert_eq!(cr.clock_is_on(Clock::HSE), false);
}

#[test]
fn test_cr_clock_is_on_all_clocks_on() {
    // HSI, HSE, and PLL start on
    let cr = CR(0b1 | 0b1 << 16 | 0b1 << 24);

    assert_eq!(cr.clock_is_on(Clock::PLL), true);
    assert_eq!(cr.clock_is_on(Clock::HSI), true);
    assert_eq!(cr.clock_is_on(Clock::HSE), true);
}

#[test]
fn test_cr_clock_is_ready_all_clocks_not_ready() {
    let cr = CR(0);

    assert_eq!(cr.clock_is_ready(Clock::PLL), false);
    assert_eq!(cr.clock_is_ready(Clock::HSI), false);
    assert_eq!(cr.clock_is_ready(Clock::HSE), false);
}

#[test]
fn test_cr_clock_is_ready_all_clocks_ready() {
    // HSI, HSE, and PLL start ready
    let cr = CR(0b1 << 1 | 0b1 << 17 | 0b1 << 25);

    assert_eq!(cr.clock_is_ready(Clock::PLL), true);
    assert_eq!(cr.clock_is_ready(Clock::HSI), true);
    assert_eq!(cr.clock_is_ready(Clock::HSE), true);
}

#[test]
fn test_cr2_set_hsi48_clock_on() {
    let mut cr2 = CR2(0);

    cr2.set_clock(true, Clock::HSI48);
    assert_eq!(cr2.0, 0b1 << 16);
}

#[test]
fn test_cr2_set_hsi48_clock_off() {
    // HSI48 starts on
    let mut cr2 = CR2(0b1 << 16);

    cr2.set_clock(false, Clock::HSI48);
    assert_eq!(cr2.0, 0);
}

#[test]
fn test_cr2_set_clock_on_multiple_clocks_doesnt_change_other_clocks() {
    let mut cr2 = CR2(0);

    cr2.set_clock(true, Clock::HSI48);
    assert_eq!(cr2.0, 0b1 << 16);

    cr2.set_clock(true, Clock::HSI14);
    assert_eq!(cr2.0, 0b1 | 0b1 << 16);
}

#[test]
fn test_cr2_set_clock_off_multiple_clocks_doesnt_change_other_clocks() {
    // HSI14 and HSI48 start on
    let mut cr2 = CR2(0b1 | 0b1 << 16);

    cr2.set_clock(false, Clock::HSI14);
    assert_eq!(cr2.0, 0b1 << 16);

    cr2.set_clock(false, Clock::HSI48);
    assert_eq!(cr2.0, 0);
}

#[test]
fn test_cr2_clock_is_on_all_clocks_off() {
    let cr2 = CR2(0);

    assert_eq!(cr2.clock_is_on(Clock::HSI48), false);
    assert_eq!(cr2.clock_is_on(Clock::HSI14), false);
}

#[test]
fn test_cr2_clock_is_on_all_clocks_on() {
    // HSI14 and HSI48 start on
    let cr2 = CR2(0b1 | 0b1 << 16);

    assert_eq!(cr2.clock_is_on(Clock::HSI48), true);
    assert_eq!(cr2.clock_is_on(Clock::HSI14), true);
}

#[test]
fn test_cr2_clock_is_ready_all_clocks_not_ready() {
    let cr2 = CR2(0);

    assert_eq!(cr2.clock_is_ready(Clock::HSI48), false);
    assert_eq!(cr2.clock_is_ready(Clock::HSI14), false);
}

#[test]
fn test_cr2_clock_is_ready_all_clocks_ready() {
    // HSI14 and HSI48 start ready
    let cr2 = CR2(0b1 << 1 | 0b1 << 17);

    assert_eq!(cr2.clock_is_ready(Clock::HSI48), true);
    assert_eq!(cr2.clock_is_ready(Clock::HSI14), true);
}

#[test]
fn test_cfgr_get_system_clock_source() {
    // PLL starts as source
    let cfgr = CFGR(0b10 << 2);

    assert_eq!(cfgr.get_system_clock_source(), Clock::PLL);
}

#[test]
fn test_cfgr_set_system_clock_source() {
    let mut cfgr = CFGR(0);

    cfgr.set_system_clock_source(Clock::PLL);
    assert_eq!(cfgr.0, 0b10);
}

#[test]
fn test_cfgr_get_pll_source() {
    let cfgr = CFGR(0b01 << 15);

    assert_eq!(cfgr.get_pll_source(), Clock::HSI);
}

#[test]
fn test_cfgr_set_pll_source() {
    let mut cfgr = CFGR(0);

    cfgr.set_pll_source(Clock::HSE);
    assert_eq!(cfgr.0, 0b10 << 15);
}

#[test]
fn test_cfgr_get_pll_multiplier() {
    // Multiplier field starts at 8, should get 10 out
    let cfgr = CFGR(0b1000 << 18);

    assert_eq!(cfgr.get_pll_multiplier(), 10);
}

#[test]
fn test_cfgr_get_pll_multiplier_saturates_at_16() {
    // Multiplier field starts at 15, should get 16 out
    let cfgr = CFGR(0b1111 << 18);

    assert_eq!(cfgr.get_pll_multiplier(), 16);
}

#[test]
fn test_cfgr_set_pll_multiplier() {
    let mut cfgr = CFGR(0);

    cfgr.set_pll_multiplier(8);
    assert_eq!(cfgr.0, 0b0110 << 18);
}

#[test]
fn test_cfgr2_get_pll_prediv_factor() {
    // Prediv factor field starts at 12, should get 13 out
    let cfgr2 = CFGR2(0b1100);

    assert_eq!(cfgr2.get_pll_prediv_factor(), 13);
}

#[test]
fn test_cfgr2_set_pll_prediv_factor() {
    let mut cfgr2 = CFGR2(0);

    cfgr2.set_pll_prediv_factor(10);
    assert_eq!(cfgr2.0, 0b1001);
}

#[test]
fn test_ahbenr_get_enable() {
    // GPIO Group A starts enabled
    let ahbenr = AHBENR(0b1 << 17);

    assert_eq!(ahbenr.get_enable(Peripheral::GPIOA), true);
    assert_eq!(ahbenr.get_enable(Peripheral::GPIOB), false);
}

#[test]
fn test_ahbenr_set_enable_on() {
    let mut ahbenr = AHBENR(0);

    ahbenr.set_enable(true, Peripheral::GPIOB);
    assert_eq!(ahbenr.0, 0b1 << 18);
}

#[test]
fn test_ahbenr_set_enable_off() {
    // CRC starts enabled
    let mut ahbenr = AHBENR(0b1 << 6);

    ahbenr.set_enable(false, Peripheral::CRC);
    assert_eq!(ahbenr.0, 0);
}

#[test]
fn test_ahbenr_set_enable_on_multiple_peripherals_doesnt_change_settings() {
    let mut ahbenr = AHBENR(0);

    ahbenr.set_enable(true, Peripheral::GPIOA);
    assert_eq!(ahbenr.0, 0b1 << 17);

    ahbenr.set_enable(true, Peripheral::CRC);
    assert_eq!(ahbenr.0, 0b1 << 6 | 0b1 << 17);
}

#[test]
fn test_ahbenr_set_enable_off_multiple_peripherals_doesnt_change_settings() {
    // SRAM and GPIOB start enabled
    let mut ahbenr = AHBENR(0b1 << 2 | 0b1 << 18);

    ahbenr.set_enable(false, Peripheral::GPIOB);
    assert_eq!(ahbenr.0, 0b1 << 2);

    ahbenr.set_enable(false, Peripheral::SRAMInterface);
    assert_eq!(ahbenr.0, 0);
}

#[test]
fn test_apbenr1_get_enable() {
    // USB starts enabled
    let apbenr1 = APBENR1(0b1 << 23);

    assert_eq!(apbenr1.get_enable(Peripheral::USB), true);
    assert_eq!(apbenr1.get_enable(Peripheral::CEC), false);
}

#[test]
fn test_apbenr1_set_enable_on() {
    let mut apbenr1 = APBENR1(0);

    apbenr1.set_enable(true, Peripheral::USART2);
    assert_eq!(apbenr1.0, 0b1 << 17);
}

#[test]
fn test_apbenr1_set_enable_off() {
    // SPI2 starts enabled
    let mut apbenr1 = APBENR1(0b1 << 14);

    apbenr1.set_enable(false, Peripheral::SPI2);
    assert_eq!(apbenr1.0, 0);
}

#[test]
fn test_apbenr1_set_enable_on_multiple_peripherals_doesnt_change_settings() {
    let mut apbenr1 = APBENR1(0);

    apbenr1.set_enable(true, Peripheral::USART2);
    assert_eq!(apbenr1.0, 0b1 << 17);

    apbenr1.set_enable(true, Peripheral::SPI2);
    assert_eq!(apbenr1.0, 0b1 << 14 | 0b1 << 17);
}

#[test]
fn test_apbenr1_set_enable_off_multiple_peripherals_doesnt_change_settings() {
    // TIM3 and PWR start enabled
    let mut apbenr1 = APBENR1(0b1 << 1 | 0b1 << 28);

    apbenr1.set_enable(false, Peripheral::PowerInterface);
    assert_eq!(apbenr1.0, 0b1 << 1);

    apbenr1.set_enable(false, Peripheral::TIM3);
    assert_eq!(apbenr1.0, 0);
}

#[test]
fn test_apbenr2_get_enable() {
    // USART1 starts enabled
    let apbenr2 = APBENR2(0b1 << 14);

    assert_eq!(apbenr2.get_enable(Peripheral::USART1), true);
    assert_eq!(apbenr2.get_enable(Peripheral::SPI1), false);
}

#[test]
fn test_apbenr2_set_enable_on() {
    let mut apbenr2 = APBENR2(0);

    apbenr2.set_enable(true, Peripheral::ADC);
    assert_eq!(apbenr2.0, 0b1 << 9);
}

#[test]
fn test_apbenr2_set_enable_off() {
    // USART1 starts enabled
    let mut apbenr2 = APBENR2(0b1 << 14);

    apbenr2.set_enable(false, Peripheral::USART1);
    assert_eq!(apbenr2.0, 0);
}

#[test]
fn test_apbenr2_set_enable_on_multiple_peripherals_doesnt_change_settings() {
    let mut apbenr2 = APBENR2(0);

    apbenr2.set_enable(true, Peripheral::TIM17);
    assert_eq!(apbenr2.0, 0b1 << 18);

    apbenr2.set_enable(true, Peripheral::SysCfgComp);
    assert_eq!(apbenr2.0, 0b1 | 0b1 << 18);
}

#[test]
fn test_apbenr2_set_enable_off_multiple_peripherals_doesnt_change_settings() {
    // DBGMCU and USART6 start enabled
    let mut apbenr2 = APBENR2(0b1 << 5 | 0b1 << 22);

    apbenr2.set_enable(false, Peripheral::MCUDebug);
    assert_eq!(apbenr2.0, 0b1 << 5);

    apbenr2.set_enable(false, Peripheral::USART6);
    assert_eq!(apbenr2.0, 0);
}

#[test]
fn test_rawrcc_peripheral_is_enabled_follows_set() {
    let mut r: RawRCC = rcc();

    assert!(!r.peripheral_is_enabled(Peripheral::USB));
    r.enable_peripheral(Peripheral::USB);
    assert!(r.peripheral_is_enabled(Peripheral::USB));
    r.disable_peripheral(Peripheral::USB);
    assert!(!r.peripheral_is_enabled(Peripheral::USB));
}

#[test]
fn test_rawrcc_update_system_clock_rate_hsi48_pll() {
    let mut r: RawRCC = rcc();

    // PLL driven by HSI48 with prediv 2 and multiplier 3: 72 MHz.
    r.set_pll_source(Clock::HSI48);
    r.set_pll_prediv_factor(2);
    r.set_pll_multiplier(3);
    // Force the status field to report the PLL as the system clock.
    r.cfgr.0 |= 0b10 << 2;
    r.update_system_clock_rate();
    assert_eq!(r.get_system_clock_rate(), 72_000_000);
}

#[test]
fn test_rawrcc_update_system_clock_rate_hsi() {
    let mut r: RawRCC = rcc();

    r.update_system_clock_rate();
    assert_eq!(r.get_system_clock_rate(), 8_000_000);
}
