//! The sensor's register memory map.
//!
//! The address values are the vendor's fixed wire contract and must match the
//! sensor's memory map bit for bit.

use vstd::prelude::*;

verus! {

/// A register of the sensor, addressed over the bus by a single byte.
#[derive(Clone, Copy, Debug, PartialEq, Eq, Structural)]
pub enum Register {
    /// Chip identity register.
    Id,
    /// Soft-reset register.
    Reset,
    /// First word of the temperature calibration block.
    T1,
    T2,
    T3,
    /// First word of the pressure calibration block.
    P1,
    P2,
    P3,
    P4,
    P5,
    P6,
    P7,
    P8,
    P9,
    /// Humidity calibration words.
    H1,
    H2,
    H3,
    H7,
    /// Humidity oversampling control register.
    ControlHum,
    /// Combined oversampling / run-mode control register.
    Control,
    /// General configuration register.
    Config,
    /// Raw pressure data block: MSB, LSB, XLSB.
    PressureData,
    PressureData1,
    PressureData2,
    /// Raw temperature data block: MSB, LSB, XLSB.
    TempData,
    TempData1,
    TempData2,
}

/// The bus address of each register, as the vendor's memory map fixes it.
pub open spec fn spec_addr(r: Register) -> u8 {
    match r {
        Register::Id => 0xD0,
        Register::Reset => 0xE0,
        Register::T1 => 0x88,
        Register::T2 => 0x8A,
        Register::T3 => 0x8C,
        Register::P1 => 0x8E,
        Register::P2 => 0x90,
        Register::P3 => 0x92,
        Register::P4 => 0x94,
        Register::P5 => 0x96,
        Register::P6 => 0x98,
        Register::P7 => 0x9A,
        Register::P8 => 0x9C,
        Register::P9 => 0x9E,
        Register::H1 => 0xA1,
        Register::H2 => 0xE1,
        Register::H3 => 0xE3,
        Register::H7 => 0xE7,
        Register::ControlHum => 0xF2,
        Register::Control => 0xF4,
        Register::Config => 0xF5,
        Register::PressureData => 0xF7,
        Register::PressureData1 => 0xF8,
        Register::PressureData2 => 0xF9,
        Register::TempData => 0xFA,
        Register::TempData1 => 0xFB,
        Register::TempData2 => 0xFC,
    }
}

impl Register {
    /// The byte that addresses this register on the bus.
    pub fn addr(self) -> (a: u8)
        ensures
            a == spec_addr(self),
    {
        match self {
            Register::Id => 0xD0,
            Register::Reset => 0xE0,
            Register::T1 => 0x88,
            Register::T2 => 0x8A,
            Register::T3 => 0x8C,
            Register::P1 => 0x8E,
            Register::P2 => 0x90,
            Register::P3 => 0x92,
            Register::P4 => 0x94,
            Register::P5 => 0x96,
            Register::P6 => 0x98,
            Register::P7 => 0x9A,
            Register::P8 => 0x9C,
            Register::P9 => 0x9E,
            Register::H1 => 0xA1,
            Register::H2 => 0xE1,
            Register::H3 => 0xE3,
            Register::H7 => 0xE7,
            Register::ControlHum => 0xF2,
            Register::Control => 0xF4,
            Register::Config => 0xF5,
            Register::PressureData => 0xF7,
            Register::PressureData1 => 0xF8,
            Register::PressureData2 => 0xF9,
            Register::TempData => 0xFA,
            Register::TempData1 => 0xFB,
            Register::TempData2 => 0xFC,
        }
    }
}

} // verus!
