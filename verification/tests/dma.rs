use cortex_m0::dma::{CCR, CMAR, CNDTR, CPAR, IFCR, DMAChannel, DataDirection, PeriphAndMemSize,
    ChannelPriorityLevel, RawDMA, set_dma_usart_tx};

#[test]
fn test_ccr_enable_disable_dma() {
    let mut ccr = CCR(0);
    assert_eq!(ccr.0, 0b0);

    ccr.enable_dma(true);
    assert_eq!(ccr.0, 0b1);

    ccr.enable_dma(false);
    assert_eq!(ccr.0, 0b0);
}

#[test]
fn test_ccr_enable_transmit_complete_interrupt() {
    let mut ccr = CCR(0);
    assert_eq!(ccr.0, 0b0);

    ccr.enable_transmit_complete_interrupt(true);
    assert_eq!(ccr.0, 0b1 << 1);

    ccr.enable_transmit_complete_interrupt(false);
    assert_eq!(ccr.0, 0b0);
}

#[test]
fn test_ccr_enable_half_transfer_interrupt() {
    let mut ccr = CCR(0);
    assert_eq!(ccr.0, 0b0);

    ccr.enable_half_transfer_interrupt(true);
    assert_eq!(ccr.0, 0b1 << 2);

    ccr.enable_half_transfer_interrupt(false);
    assert_eq!(ccr.0, 0b0);
}

#[test]
fn test_ccr_enable_transfer_error_interrupt() {
    let mut ccr = CCR(0);
    assert_eq!(ccr.0, 0b0);

    ccr.enable_transfer_error_interrupt(true);
    assert_eq!(ccr.0, 0b1 << 3);

    ccr.enable_transfer_error_interrupt(false);
    assert_eq!(ccr.0, 0b0);
}

#[test]
fn test_ccr_set_data_transfer_direction() {
    let mut ccr = CCR(0);
    assert_eq!(ccr.0, 0b0);

    ccr.set_data_transfer_direction(DataDirection::FromMem);
    assert_eq!(ccr.0, 1 << 4);

    ccr.set_data_transfer_direction(DataDirection::FromPeriph);
    assert_eq!(ccr.0, 0b0);
}

#[test]
fn test_ccr_enable_circular_mode() {
    let mut ccr = CCR(0);
    assert_eq!(ccr.0, 0b0);

    ccr.enable_circular_mode(true);
    assert_eq!(ccr.0, 0b1 << 5);

    ccr.enable_circular_mode(false);
    assert_eq!(ccr.0, 0b0);
}

#[test]
fn test_ccr_enable_peripheral_increment_mode() {
    let mut ccr = CCR(0);
    assert_eq!(ccr.0, 0b0);

    ccr.enable_peripheral_increment_mode(true);
    assert_eq!(ccr.0, 0b1 << 6);

    ccr.enable_peripheral_increment_mode(false);
    assert_eq!(ccr.0, 0b0);
}

#[test]
fn test_ccr_enable_memory_increment_mode() {
    let mut ccr = CCR(0);
    assert_eq!(ccr.0, 0b0);

    ccr.enable_memory_increment_mode(true);
    assert_eq!(ccr.0, 0b1 << 7);

    ccr.enable_memory_increment_mode(false);
    assert_eq!(ccr.0, 0b0);
}

#[test]
fn test_ccr_set_peripheral_size() {
    let mut ccr = CCR(0);
    assert_eq!(ccr.0, 0b0);

    ccr.set_peripheral_size(PeriphAndMemSize::Sixteen);
    assert_eq!(ccr.0, 0b1 << 8);

    ccr.set_peripheral_size(PeriphAndMemSize::ThirtyTwo);
    assert_eq!(ccr.0, 0b1 << 9);

    ccr.set_peripheral_size(PeriphAndMemSize::Reserved);
    assert_eq!(ccr.0, 0b11 << 8);

    ccr.set_peripheral_size(PeriphAndMemSize::Eight);
    assert_eq!(ccr.0, 0b0);
}

#[test]
fn test_ccr_set_memory_size() {
    let mut ccr = CCR(0);
    assert_eq!(ccr.0, 0b0);

    ccr.set_memory_size(PeriphAndMemSize::Sixteen);
    assert_eq!(ccr.0, 0b1 << 10);

    ccr.set_memory_size(PeriphAndMemSize::ThirtyTwo);
    assert_eq!(ccr.0, 0b1 << 11);

    ccr.set_memory_size(PeriphAndMemSize::Reserved);
    assert_eq!(ccr.0, 0b11 << 10);

    ccr.set_memory_size(PeriphAndMemSize::Eight);
    assert_eq!(ccr.0, 0b0);
}

#[test]
fn test_ccr_set_channel_priority() {
    let mut ccr = CCR(0);
    assert_eq!(ccr.0, 0b0);

    ccr.set_channel_priority(ChannelPriorityLevel::Medium);
    assert_eq!(ccr.0, 0b1 << 12);

    ccr.set_channel_priority(ChannelPriorityLevel::High);
    assert_eq!(ccr.0, 0b1 << 13);

    ccr.set_channel_priority(ChannelPriorityLevel::VeryHigh);
    assert_eq!(ccr.0, 0b11 << 12);

    ccr.set_channel_priority(ChannelPriorityLevel::Low);
    assert_eq!(ccr.0, 0b0);
}

#[test]
fn test_ccr_enable_mem2mem_mode() {
    let mut ccr = CCR(0);
    assert_eq!(ccr.0, 0b0);

    ccr.enable_mem2mem_mode(true);
    assert_eq!(ccr.0, 1 << 14);

    ccr.enable_mem2mem_mode(false);
    assert_eq!(ccr.0, 0b0);
}

#[test]
fn test_cmar_set_ma_correctly_stores_address() {
    let mut cmar = CMAR(0);
    assert_eq!(cmar.0, 0b0);

    cmar.set_ma(0x4001_3800);
    assert_eq!(cmar.0, 0x4001_3800);

    cmar.set_ma(0x4000_4400);
    assert_eq!(cmar.0, 0x4000_4400);
}

#[test]
fn test_cndtr_set_ndt_stores_value_correctly() {
    let mut cndtr = CNDTR(0);
    assert_eq!(cndtr.0, 0b0);

    cndtr.set_ndt(65535);
    assert_eq!(cndtr.0, 65535);

    cndtr.set_ndt(5);
    assert_eq!(cndtr.0, 5);
}

#[test]
fn test_cpar_set_pa_correctly_stores_address() {
    let mut cpar = CPAR(0);
    assert_eq!(cpar.0, 0b0);

    cpar.set_pa(0x4001_3800);
    assert_eq!(cpar.0, 0x4001_3800);

    cpar.set_pa(0x4000_4400);
    assert_eq!(cpar.0, 0x4000_4400);
}

#[test]
fn channel_global_interrupt_clear_sets_correct_bit_for_chan_one() {
    let mut ifcr = IFCR(0);
    ifcr.channel_global_interrupt_clear(DMAChannel::One);
    assert_eq!(ifcr.0, 0b1);
}

#[test]
fn channel_global_interrupt_clear_sets_correct_bit_for_chan_two() {
    let mut ifcr = IFCR(0);
    ifcr.channel_global_interrupt_clear(DMAChannel::Two);
    assert_eq!(ifcr.0, 0b1 << 4);
}

#[test]
fn channel_global_interrupt_clear_sets_correct_bit_for_chan_three() {
    let mut ifcr = IFCR(0);
    ifcr.channel_global_interrupt_clear(DMAChannel::Three);
    assert_eq!(ifcr.0, 0b1 << 8);
}

#[test]
fn channel_global_interrupt_clear_sets_correct_bit_for_chan_four() {
    let mut ifcr = IFCR(0);
    ifcr.channel_global_interrupt_clear(DMAChannel::Four);
    assert_eq!(ifcr.0, 0b1 << 12);
}

#[test]
fn channel_global_interrupt_clear_sets_correct_bit_for_chan_five() {
    let mut ifcr = IFCR(0);
    ifcr.channel_global_interrupt_clear(DMAChannel::Five);
    assert_eq!(ifcr.0, 0b1 << 16);
}

#[test]
fn channel_transfer_complete_clear_sets_correct_bit_for_chan_one() {
    let mut ifcr = IFCR(0);
    ifcr.channel_transfer_complete_clear(DMAChannel::One);
    assert_eq!(ifcr.0, 0b1 << 1);
}

#[test]
fn channel_transfer_complete_clear_sets_correct_bit_for_chan_two() {
    let mut ifcr = IFCR(0);
    ifcr.channel_transfer_complete_clear(DMAChannel::Two);
    assert_eq!(ifcr.0, 0b1 << 5);
}

#[test]
fn channel_transfer_complete_clear_sets_correct_bit_for_chan_three() {
    let mut ifcr = IFCR(0);
    ifcr.channel_transfer_complete_clear(DMAChannel::Three);
    assert_eq!(ifcr.0, 0b1 << 9);
}

#[test]
fn channel_transfer_complete_clear_sets_correct_bit_for_chan_four() {
    let mut ifcr = IFCR(0);
    ifcr.channel_transfer_complete_clear(DMAChannel::Four);
    assert_eq!(ifcr.0, 0b1 << 13);
}

#[test]
fn channel_transfer_complete_clear_sets_correct_bit_for_chan_five() {
    let mut ifcr = IFCR(0);
    ifcr.channel_transfer_complete_clear(DMAChannel::Five);
    assert_eq!(ifcr.0, 0b1 << 17);
}

#[test]
fn channel_half_transfer_complete_clear_sets_correct_bit_for_chan_one() {
    let mut ifcr = IFCR(0);
    ifcr.channel_half_transfer_clear(DMAChannel::One);
    assert_eq!(ifcr.0, 0b1 << 2);
}

#[test]
fn channel_half_transfer_complete_clear_sets_correct_bit_for_chan_two() {
    let mut ifcr = IFCR(0);
    ifcr.channel_half_transfer_clear(DMAChannel::Two);
    assert_eq!(ifcr.0, 0b1 << 6);
}

#[test]
fn channel_half_transfer_complete_clear_sets_correct_bit_for_chan_three() {
    let mut ifcr = IFCR(0);
    ifcr.channel_half_transfer_clear(DMAChannel::Three);
    assert_eq!(ifcr.0, 0b1 << 10);
}

#[test]
fn channel_half_transfer_complete_clear_sets_correct_bit_for_chan_four() {
    let mut ifcr = IFCR(0);
    ifcr.channel_half_transfer_clear(DMAChannel::Four);
    assert_eq!(ifcr.0, 0b1 << 14);
}

#[test]
fn channel_half_transfer_complete_clear_sets_correct_bit_for_chan_five() {
    let mut ifcr = IFCR(0);
    ifcr.channel_half_transfer_clear(DMAChannel::Five);
    assert_eq!(ifcr.0, 0b1 << 18);
}

#[test]
fn channel_transfer_error_clear_sets_correct_bit_for_chan_one() {
    let mut ifcr = IFCR(0);
    ifcr.channel_transfer_error_clear(DMAChannel::One);
    assert_eq!(ifcr.0, 0b1 << 3);
}

#[test]
fn channel_transfer_error_clear_sets_correct_bit_for_chan_two() {
    let mut ifcr = IFCR(0);
    ifcr.channel_transfer_error_clear(DMAChannel::Two);
    assert_eq!(ifcr.0, 0b1 << 7);
}

#[test]
fn channel_transfer_error_clear_sets_correct_bit_for_chan_three() {
    let mut ifcr = IFCR(0);
    ifcr.channel_transfer_error_clear(DMAChannel::Three);
    assert_eq!(ifcr.0, 0b1 << 11);
}

#[test]
fn channel_transfer_error_clear_sets_correct_bit_for_chan_four() {
    let mut ifcr = IFCR(0);
    ifcr.channel_transfer_error_clear(DMAChannel::Four);
    assert_eq!(ifcr.0, 0b1 << 15);
}

#[test]
fn channel_transfer_error_clear_sets_correct_bit_for_chan_five() {
    let mut ifcr = IFCR(0);
    ifcr.channel_transfer_error_clear(DMAChannel::Five);
    assert_eq!(ifcr.0, 0b1 << 19);
}

#[test]
fn set_dma_usart_tx_programs_the_channel() {
    let mut dma = RawDMA::new();

    set_dma_usart_tx(&mut dma, DMAChannel::Four, 0x4000_4428, 0x2000_0100, 32);

    let regs = dma.get_channel(DMAChannel::Four);
    assert_eq!(regs.cpar.0, 0x4000_4428);
    assert_eq!(regs.cmar.0, 0x2000_0100);
    assert_eq!(regs.cndtr.0, 32);
    // Enabled, TC interrupt on, direction from memory, memory increment,
    // medium priority, byte-sized on both sides.
    assert_eq!(regs.ccr.0, 0b1 | 0b1 << 1 | 0b1 << 4 | 0b1 << 7 | 0b1 << 12);
}
