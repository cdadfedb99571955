//! The peripheral clock enable registers AHBENR, APBENR1 and APBENR2: each
//! serves a fixed set of peripherals, one enable bit per peripheral.

use vstd::prelude::*;
use crate::field::Field;
use crate::rcc::defs::{
    DMAEN, DMA2EN, SRAMEN, FLITFEN, CRCEN, IOPAEN, IOPBEN, IOPCEN, IOPFEN, TSCEN, TIM2EN, TIM3EN,
    TIM6EN, TIM7EN, TIM14EN, WWDGEN, SPI2EN, USART2EN, USART3EN, USART4EN, USART5EN, I2C1EN,
    I2C2EN, USBEN, CANEN, CRSEN, PWREN, DACEN, CECEN, SYSCFGCOMPEN, USART6EN, USART7EN, USART8EN,
    ADCEN, TIM1EN, SPI1EN, USART1EN, TIM15EN, TIM16EN, TIM17EN, DBGMCUEN,
};

verus! {

/// Defines available peripherals.
#[allow(missing_docs)]
#[derive(Copy, Clone, Debug, PartialEq, Eq, Structural)]
pub enum Peripheral {
    // AHB Peripherals
    TouchSenseController,
    GPIOA,
    GPIOB,
    GPIOC,
    GPIOF,
    CRC,
    FLITF,
    SRAMInterface,
    DMA,
    DMA2,
    // APB1 Peripherals
    CEC,
    DAC,
    PowerInterface,
    ClockRecoverySystem,
    CAN,
    USB,
    I2C1,
    I2C2,
    USART2,
    USART3,
    USART4,
    USART5,
    SPI2,
    WindowWatchdog,
    TIM2,
    TIM3,
    TIM6,
    TIM7,
    TIM14,
    // APB2 Peripherals
    MCUDebug,
    TIM1,
    TIM15,
    TIM16,
    TIM17,
    USART1,
    USART6,
    USART7,
    USART8,
    SPI1,
    ADC,
    SysCfgComp,
}

impl Field for Peripheral {
    open spec fn spec_mask(&self) -> u32 {
        match *self {
            // AHB Peripherals
            Peripheral::TouchSenseController => TSCEN,
            Peripheral::GPIOA => IOPAEN,
            Peripheral::GPIOB => IOPBEN,
            Peripheral::GPIOC => IOPCEN,
            Peripheral::GPIOF => IOPFEN,
            Peripheral::CRC => CRCEN,
            Peripheral::FLITF => FLITFEN,
            Peripheral::SRAMInterface => SRAMEN,
            Peripheral::DMA => DMAEN,
            Peripheral::DMA2 => DMA2EN,
            // APB1 Peripherals
            Peripheral::CEC => CECEN,
            Peripheral::DAC => DACEN,
            Peripheral::PowerInterface => PWREN,
            Peripheral::ClockRecoverySystem => CRSEN,
            Peripheral::CAN => CANEN,
            Peripheral::USB => USBEN,
            Peripheral::I2C1 => I2C1EN,
            Peripheral::I2C2 => I2C2EN,
            Peripheral::USART2 => USART2EN,
            Peripheral::USART3 => USART3EN,
            Peripheral::USART4 => USART4EN,
            Peripheral::USART5 => USART5EN,
            Peripheral::SPI2 => SPI2EN,
            Peripheral::WindowWatchdog => WWDGEN,
            Peripheral::TIM2 => TIM2EN,
            Peripheral::TIM3 => TIM3EN,
            Peripheral::TIM6 => TIM6EN,
            Peripheral::TIM7 => TIM7EN,
            Peripheral::TIM14 => TIM14EN,
            // APB2 Peripherals
            Peripheral::MCUDebug => DBGMCUEN,
            Peripheral::TIM1 => TIM1EN,
            Peripheral::TIM15 => TIM15EN,
            Peripheral::TIM16 => TIM16EN,
            Peripheral::TIM17 => TIM17EN,
            Peripheral::USART1 => USART1EN,
            Peripheral::USART6 => USART6EN,
            Peripheral::USART7 => USART7EN,
            Peripheral::USART8 => USART8EN,
            Peripheral::SPI1 => SPI1EN,
            Peripheral::ADC => ADCEN,
            Peripheral::SysCfgComp => SYSCFGCOMPEN,
        }
    }

    fn mask(&self) -> (r: u32) {
        match *self {
            // AHB Peripherals
            Peripheral::TouchSenseController => TSCEN,
            Peripheral::GPIOA => IOPAEN,
            Peripheral::GPIOB => IOPBEN,
            Peripheral::GPIOC => IOPCEN,
            Peripheral::GPIOF => IOPFEN,
            Peripheral::CRC => CRCEN,
            Peripheral::FLITF => FLITFEN,
            Peripheral::SRAMInterface => SRAMEN,
            Peripheral::DMA => DMAEN,
            Peripheral::DMA2 => DMA2EN,
            // APB1 Peripherals
            Peripheral::CEC => CECEN,
            Peripheral::DAC => DACEN,
            Peripheral::PowerInterface => PWREN,
            Peripheral::ClockRecoverySystem => CRSEN,
            Peripheral::CAN => CANEN,
            Peripheral::USB => USBEN,
            Peripheral::I2C1 => I2C1EN,
            Peripheral::I2C2 => I2C2EN,
            Peripheral::USART2 => USART2EN,
            Peripheral::USART3 => USART3EN,
            Peripheral::USART4 => USART4EN,
            Peripheral::USART5 => USART5EN,
            Peripheral::SPI2 => SPI2EN,
            Peripheral::WindowWatchdog => WWDGEN,
            Peripheral::TIM2 => TIM2EN,
            Peripheral::TIM3 => TIM3EN,
            Peripheral::TIM6 => TIM6EN,
            Peripheral::TIM7 => TIM7EN,
            Peripheral::TIM14 => TIM14EN,
            // APB2 Peripherals
            Peripheral::MCUDebug => DBGMCUEN,
            Peripheral::TIM1 => TIM1EN,
            Peripheral::TIM15 => TIM15EN,
            Peripheral::TIM16 => TIM16EN,
            Peripheral::TIM17 => TIM17EN,
            Peripheral::USART1 => USART1EN,
            Peripheral::USART6 => USART6EN,
            Peripheral::USART7 => USART7EN,
            Peripheral::USART8 => USART8EN,
            Peripheral::SPI1 => SPI1EN,
            Peripheral::ADC => ADCEN,
            Peripheral::SysCfgComp => SYSCFGCOMPEN,
        }
    }
}

/// Whether a peripheral hangs off the AHB clock.
pub open spec fn spec_serves_ahb(p: Peripheral) -> bool {
    match p {
        Peripheral::TouchSenseController | Peripheral::GPIOA | Peripheral::GPIOB
            | Peripheral::GPIOC | Peripheral::GPIOF | Peripheral::CRC | Peripheral::FLITF
            | Peripheral::SRAMInterface | Peripheral::DMA | Peripheral::DMA2 => true,
        _ => false,
    }
}

/// Whether a peripheral hangs off the APB1 clock.
pub open spec fn spec_serves_apb1(p: Peripheral) -> bool {
    match p {
        Peripheral::CEC | Peripheral::DAC | Peripheral::PowerInterface
            | Peripheral::ClockRecoverySystem | Peripheral::CAN | Peripheral::USB
            | Peripheral::I2C1 | Peripheral::I2C2 | Peripheral::USART2 | Peripheral::USART3
            | Peripheral::USART4 | Peripheral::USART5 | Peripheral::SPI2
            | Peripheral::WindowWatchdog | Peripheral::TIM2 | Peripheral::TIM3 | Peripheral::TIM6
            | Peripheral::TIM7 | Peripheral::TIM14 => true,
        _ => false,
    }
}

/// Whether a peripheral hangs off the APB2 clock.
pub open spec fn spec_serves_apb2(p: Peripheral) -> bool {
    match p {
        Peripheral::MCUDebug | Peripheral::TIM1 | Peripheral::TIM15 | Peripheral::TIM16
            | Peripheral::TIM17 | Peripheral::USART1 | Peripheral::USART6 | Peripheral::USART7
            | Peripheral::USART8 | Peripheral::SPI1 | Peripheral::ADC | Peripheral::SysCfgComp =>
            true,
        _ => false,
    }
}

/// AHB peripheral clock enable register.
#[derive(Copy, Clone, Debug)]
pub struct AHBENR(pub u32);

impl AHBENR {
    /// Whether the peripheral's clock is enabled; the register must serve
    /// the peripheral.
    pub fn get_enable(&self, peripheral: Peripheral) -> (r: bool)
        requires
            spec_serves_ahb(peripheral),
        ensures
            r == (self.0 & peripheral.spec_mask() != 0),
    {
        let mask = peripheral.mask();

        self.0 & mask != 0
    }

    /// Enable or disable the peripheral's clock; the register must serve
    /// the peripheral.
    pub fn set_enable(&mut self, enable: bool, peripheral: Peripheral)
        requires
            spec_serves_ahb(peripheral),
        ensures
            enable ==> final(self).0 == (old(self).0 & !peripheral.spec_mask())
                | peripheral.spec_mask(),
            !enable ==> final(self).0 == old(self).0 & !peripheral.spec_mask(),
    {
        let mask = peripheral.mask();

        self.0 &= !mask;
        if enable {
            self.0 |= mask;
        }
    }

    /// Whether this register controls the peripheral's clock.
    pub fn serves_peripheral(&self, peripheral: Peripheral) -> (r: bool)
        ensures
            r == spec_serves_ahb(peripheral),
    {
        match peripheral {
            Peripheral::TouchSenseController | Peripheral::GPIOA | Peripheral::GPIOB
                | Peripheral::GPIOC | Peripheral::GPIOF | Peripheral::CRC | Peripheral::FLITF
                | Peripheral::SRAMInterface | Peripheral::DMA | Peripheral::DMA2 => true,
            _ => false,
        }
    }
}

/// APB1 peripheral clock enable register.
#[derive(Copy, Clone, Debug)]
pub struct APBENR1(pub u32);

impl APBENR1 {
    /// Whether the peripheral's clock is enabled; the register must serve
    /// the peripheral.
    pub fn get_enable(&self, peripheral: Peripheral) -> (r: bool)
        requires
            spec_serves_apb1(peripheral),
        ensures
            r == (self.0 & peripheral.spec_mask() != 0),
    {
        let mask = peripheral.mask();

        self.0 & mask != 0
    }

    /// Enable or disable the peripheral's clock; the register must serve
    /// the peripheral.
    pub fn set_enable(&mut self, enable: bool, peripheral: Peripheral)
        requires
            spec_serves_apb1(peripheral),
        ensures
            enable ==> final(self).0 == (old(self).0 & !peripheral.spec_mask())
                | peripheral.spec_mask(),
            !enable ==> final(self).0 == old(self).0 & !peripheral.spec_mask(),
    {
        let mask = peripheral.mask();

        self.0 &= !mask;
        if enable {
            self.0 |= mask;
        }
    }

    /// Whether this register controls the peripheral's clock.
    pub fn serves_peripheral(&self, peripheral: Peripheral) -> (r: bool)
        ensures
            r == spec_serves_apb1(peripheral),
    {
        match peripheral {
            Peripheral::CEC | Peripheral::DAC | Peripheral::PowerInterface
                | Peripheral::ClockRecoverySystem | Peripheral::CAN | Peripheral::USB
                | Peripheral::I2C1 | Peripheral::I2C2 | Peripheral::USART2 | Peripheral::USART3
                | Peripheral::USART4 | Peripheral::USART5 | Peripheral::SPI2
                | Peripheral::WindowWatchdog | Peripheral::TIM2 | Peripheral::TIM3
                | Peripheral::TIM6 | Peripheral::TIM7 | Peripheral::TIM14 => true,
            _ => false,
        }
    }
}

/// APB2 peripheral clock enable register.
#[derive(Copy, Clone, Debug)]
pub struct APBENR2(pub u32);

impl APBENR2 {
    /// Whether the peripheral's clock is enabled; the register must serve
    /// the peripheral.
    pub fn get_enable(&self, peripheral: Peripheral) -> (r: bool)
        requires
            spec_serves_apb2(peripheral),
        ensures
            r == (self.0 & peripheral.spec_mask() != 0),
    {
        let mask = peripheral.mask();

        self.0 & mask != 0
    }

    /// Enable or disable the peripheral's clock; the register must serve
    /// the peripheral.
    pub fn set_enable(&mut self, enable: bool, peripheral: Peripheral)
        requires
            spec_serves_apb2(peripheral),
        ensures
            enable ==> final(self).0 == (old(self).0 & !peripheral.spec_mask())
                | peripheral.spec_mask(),
            !enable ==> final(self).0 == old(self).0 & !peripheral.spec_mask(),
    {
        let mask = peripheral.mask();

        self.0 &= !mask;
        if enable {
            self.0 |= mask;
        }
    }

    /// Whether this register controls the peripheral's clock.
    pub fn serves_peripheral(&self, peripheral: Peripheral) -> (r: bool)
        ensures
            r == spec_serves_apb2(peripheral),
    {
        match peripheral {
            Peripheral::MCUDebug | Peripheral::TIM1 | Peripheral::TIM15 | Peripheral::TIM16
                | Peripheral::TIM17 | Peripheral::USART1 | Peripheral::USART6
                | Peripheral::USART7 | Peripheral::USART8 | Peripheral::SPI1 | Peripheral::ADC
                | Peripheral::SysCfgComp => true,
            _ => false,
        }
    }
}

} // verus!
