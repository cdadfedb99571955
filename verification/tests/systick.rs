use cortex_m0::systick::{ClockSource, CSR, CVR, RVR};
use cortex_m0::systick::defs::CLEAR_VALUE;

#[test]
fn test_csr_set_enable_on() {
    let mut csr = CSR(0);

    csr.set_enable(true);
    assert_eq!(csr.0, 0b1);
}

#[test]
fn test_csr_set_enable_off() {
    let mut csr = CSR(0b1);

    csr.set_enable(false);
    assert_eq!(csr.0, 0);
}

#[test]
fn test_csr_set_interrupt_on() {
    let mut csr = CSR(0);

    csr.set_interrupt(true);
    assert_eq!(csr.0, 0b1 << 1);
}

#[test]
fn test_csr_set_interrupt_off() {
    let mut csr = CSR(0);

    csr.set_interrupt(false);
    assert_eq!(csr.0, 0);
}

#[test]
fn test_csr_set_source() {
    let mut csr = CSR(0);

    csr.set_source(ClockSource::Processor);
    assert_eq!(csr.0, 0b1 << 2);
}

#[test]
fn test_csr_did_underflow_false_if_underflow_bit_not_set() {
    let csr = CSR(0);

    assert_eq!(csr.did_underflow(), false);
}

#[test]
fn test_csr_did_underflow_true_if_underflow_bit_set() {
    let csr = CSR(0b1 << 16);

    assert_eq!(csr.did_underflow(), true);
}

#[test]
fn test_cvr_get_current_value() {
    let cvr = CVR(0xFFFF);

    assert_eq!(cvr.get_current_value(), 0xFFFF);
}

#[test]
fn test_cvr_clear_current_value() {
    let mut cvr = CVR(!CLEAR_VALUE);
    let old_value = cvr.get_current_value();

    cvr.clear_current_value();
    assert!(cvr.get_current_value() != old_value);
}

#[test]
fn test_rvr_set_reload_value_reads_back() {
    let mut rvr = RVR(0);

    rvr.set_reload_value(0xFF_FFFF);
    assert_eq!(rvr.get_reload_value(), 0xFF_FFFF);

    rvr.set_reload_value(1_000);
    assert_eq!(rvr.get_reload_value(), 1_000);
}
