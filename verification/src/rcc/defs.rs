//! Bit definitions for the reset and clock controller registers.

use vstd::prelude::*;

verus! {

// ------------------------------------
// CR bit definitions
// ------------------------------------
pub const CR_HSION: u32 = 0b1;
pub const CR_HSIRDY: u32 = 0b1 << 1;
pub const CR_HSEON: u32 = 0b1 << 16;
pub const CR_HSERDY: u32 = 0b1 << 17;
pub const CR_PLLON: u32 = 0b1 << 24;
pub const CR_PLLRDY: u32 = 0b1 << 25;

// ------------------------------------
// CR2 bit definitions
// ------------------------------------
pub const CR2_HSI14ON: u32 = 0b1;
pub const CR2_HSI14RDY: u32 = 0b1 << 1;
pub const CR2_HSI48ON: u32 = 0b1 << 16;
pub const CR2_HSI48RDY: u32 = 0b1 << 17;

// ------------------------------------
// CFGR bit definitions
// ------------------------------------
pub const CFGR_SW_CLEAR_MASK: u32 = 0b11;
pub const CFGR_CLOCK_HSI: u32 = 0b00;
pub const CFGR_CLOCK_HSE: u32 = 0b01;
pub const CFGR_CLOCK_PLL: u32 = 0b10;
pub const CFGR_CLOCK_HSI48: u32 = 0b11;

pub const CFGR_SWS_MASK: u32 = 0b11 << 2;
pub const CFGR_SWS_HSI: u32 = 0b00 << 2;
pub const CFGR_SWS_HSE: u32 = 0b01 << 2;
pub const CFGR_SWS_PLL: u32 = 0b10 << 2;
pub const CFGR_SWS_HSI48: u32 = 0b11 << 2;

pub const CFGR_PLLSRC_MASK: u32 = 0b11 << 15;
pub const CFGR_PLLSRC_HSI_2: u32 = 0b00 << 15;
pub const CFGR_PLLSRC_HSI_PREDIV: u32 = 0b01 << 15;
pub const CFGR_PLLSRC_HSE_PREDIV: u32 = 0b10 << 15;
pub const CFGR_PLLSRC_HSI48_PREDIV: u32 = 0b11 << 15;

pub const CFGR_PLLMUL_MASK: u32 = 0b1111 << 18;
pub const CFGR_PLLMUL_SHIFT: u32 = 18;

// ------------------------------------
// CFGR2 bit definitions
// ------------------------------------
pub const CFGR2_PREDIV_MASK: u32 = 0b1111;

// ------------------------------------
// Clock rates in Hz
// ------------------------------------
pub const HSI_VALUE: u32 = 8_000_000;
pub const HSE_VALUE: u32 = 8_000_000;
pub const HSI48_VALUE: u32 = 48_000_000;

// ------------------------------------
// AHBENR bit definitions
// ------------------------------------
pub const DMAEN: u32 = 0b1;
pub const DMA2EN: u32 = 0b1 << 1;
pub const SRAMEN: u32 = 0b1 << 2;
pub const FLITFEN: u32 = 0b1 << 4;
pub const CRCEN: u32 = 0b1 << 6;
pub const IOPAEN: u32 = 0b1 << 17;
pub const IOPBEN: u32 = 0b1 << 18;
pub const IOPCEN: u32 = 0b1 << 19;
pub const IOPFEN: u32 = 0b1 << 22;
pub const TSCEN: u32 = 0b1 << 24;

// ------------------------------------
// APBENR1 bit definitions
// ------------------------------------
pub const TIM2EN: u32 = 0b1;
pub const TIM3EN: u32 = 0b1 << 1;
pub const TIM6EN: u32 = 0b1 << 4;
pub const TIM7EN: u32 = 0b1 << 5;
pub const TIM14EN: u32 = 0b1 << 8;
pub const WWDGEN: u32 = 0b1 << 11;
pub const SPI2EN: u32 = 0b1 << 14;
pub const USART2EN: u32 = 0b1 << 17;
pub const USART3EN: u32 = 0b1 << 18;
pub const USART4EN: u32 = 0b1 << 19;
pub const USART5EN: u32 = 0b1 << 20;
pub const I2C1EN: u32 = 0b1 << 21;
pub const I2C2EN: u32 = 0b1 << 22;
pub const USBEN: u32 = 0b1 << 23;
pub const CANEN: u32 = 0b1 << 25;
pub const CRSEN: u32 = 0b1 << 27;
pub const PWREN: u32 = 0b1 << 28;
pub const DACEN: u32 = 0b1 << 29;
pub const CECEN: u32 = 0b1 << 30;

// ------------------------------------
// APBENR2 bit definitions
// ------------------------------------
pub const SYSCFGCOMPEN: u32 = 0b1;
pub const USART6EN: u32 = 0b1 << 5;
pub const USART7EN: u32 = 0b1 << 6;
pub const USART8EN: u32 = 0b1 << 7;
pub const ADCEN: u32 = 0b1 << 9;
pub const TIM1EN: u32 = 0b1 << 11;
pub const SPI1EN: u32 = 0b1 << 12;
pub const USART1EN: u32 = 0b1 << 14;
pub const TIM15EN: u32 = 0b1 << 16;
pub const TIM16EN: u32 = 0b1 << 17;
pub const TIM17EN: u32 = 0b1 << 18;
pub const DBGMCUEN: u32 = 0b1 << 22;

} // verus!
