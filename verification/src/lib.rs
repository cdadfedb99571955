//! Register-level driver model for an STM32F0 (ARM Cortex-M0) microcontroller.
//!
//! Every memory-mapped peripheral register is represented by a value held in
//! memory, and each operation on a register states exactly which bits it
//! changes.  The USB full-speed device controller is the heart of the crate:
//! it owns an endpoint array, a buffer-descriptor table, a bump allocator for
//! the dedicated packet memory, and the interrupt-service dispatch that moves
//! bytes between packet memory and the software-side buffers.

pub mod field;
pub mod gpio;
pub mod rcc;
pub mod dma;
pub mod usart;
pub mod adc;
pub mod systick;
pub mod interrupt;
pub mod system_control;
pub mod usb;
