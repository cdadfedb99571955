use cortex_m0::adc::{RawADC, DR, IER};

#[test]
fn test_dr_get_converted_data_truncates_to_sixteen_bits() {
    let dr = DR(0x1_2345);
    assert_eq!(dr.get_converted_data(), 0x2345);
}

#[test]
fn test_dr_get_calibration_factor_reads_low_seven_bits() {
    let dr = DR(0xFF);
    assert_eq!(dr.get_calibration_factor(), 0x7F);
}

#[test]
fn test_ier_set_and_clear_each_interrupt() {
    let mut ier = IER(0);

    ier.set_overrun_interrupt(true);
    assert_eq!(ier.0, 0b1 << 4);
    ier.set_overrun_interrupt(false);
    assert_eq!(ier.0, 0);

    ier.set_end_of_conversion_sequence_interrupt(true);
    assert_eq!(ier.0, 0b1 << 3);
    ier.set_end_of_conversion_sequence_interrupt(false);

    ier.set_end_of_conversion_interrupt(true);
    assert_eq!(ier.0, 0b1 << 2);
    ier.set_end_of_conversion_interrupt(false);

    ier.set_end_of_sampling_interrupt(true);
    assert_eq!(ier.0, 0b1 << 1);
    ier.set_end_of_sampling_interrupt(false);

    ier.set_adc_ready_interrupt(true);
    assert_eq!(ier.0, 0b1);
}

#[test]
fn test_adc_calibration_and_conversion_sequence() {
    let mut adc = RawADC::new();

    adc.dr.0 = 0x45;
    assert_eq!(adc.get_calibration(), 0x45);
    // The calibration bit has been raised and lowered again.
    assert_eq!(adc.cr, 0);

    assert!(!adc.adc_ready());
    adc.isr = 0b1;
    assert!(adc.adc_ready());

    adc.enable_adc();
    assert_eq!(adc.cr, 0b1);

    adc.start_adc_conversion();
    assert_eq!(adc.cr, 0b1 | 0b1 << 2);

    adc.disable_adc();
    assert_eq!(adc.cr, 0b1 | 0b1 << 1 | 0b1 << 2);
}

#[test]
fn test_scb_pend_sv_request() {
    let mut block = cortex_m0::system_control::scb();

    block.set_pend_sv();
    assert_eq!(block.icsr.0, 0b1 << 28);
    block.clear_pend_sv();
    assert_eq!(block.icsr.0, 0);
}
