//! The measurement engine.
//!
//! The engine owns its bus device exclusively, holds the calibration snapshot
//! read at construction, and drives the conversion sequence for each
//! measurement: trigger a conversion, wait out the worst-case settling time,
//! read the three raw data registers, and run the compensation pipeline.

use vstd::prelude::*;

use crate::bus::{BusDevice, BusError};
use crate::calibration::{as_signed, Calibration};
use crate::compensation::{
    fahrenheit_from_t_fine, pressure_from_raw, spec_pressure, spec_t_fine, spec_temperature,
    t_fine_from_raw,
};
use crate::register::Register;

verus! {

/// Oversampling code for a single sample per conversion.
pub const BME280_OSAMPLE_1: u8 = 1;

/// Oversampling code for 2 samples per conversion.
pub const BME280_OSAMPLE_2: u8 = 2;

/// Oversampling code for 4 samples per conversion.
pub const BME280_OSAMPLE_4: u8 = 3;

/// Oversampling code for 8 samples per conversion.
pub const BME280_OSAMPLE_8: u8 = 4;

/// Oversampling code for 16 samples per conversion.
pub const BME280_OSAMPLE_16: u8 = 5;

/// The control-register byte selecting maximum oversampling together with
/// the normal run mode: part of the bit-exact wire contract.
pub const MAX_OVER_SAMPLING_AND_NORMAL_MODE: u8 = 0x3F;

/// Whether `mode` is one of the five valid oversampling codes.
pub open spec fn valid_mode(mode: u8) -> bool {
    1 <= mode <= 5
}

/// The combined control byte that triggers a conversion:
/// oversampling in the two three-bit fields, and the run bit set.
pub open spec fn spec_control_byte(mode: u8) -> u8 {
    (mode << 5) | (mode << 2) | 1u8
}

/// Builds the combined oversampling / run-mode control byte.
pub fn control_byte(mode: u8) -> (r: u8)
    requires
        valid_mode(mode),
    ensures
        r == spec_control_byte(mode),
{
    (mode << 5) | (mode << 2) | 1u8
}

/// The conversion wait, in microseconds: a base latency plus one settling
/// term of `2300 * 2^mode` microseconds for each of the three measurement
/// stages, plus two fixed stage offsets.  The total grows geometrically with
/// the oversampling mode.
pub open spec fn spec_wait_micros(mode: u8) -> int {
    1250 + 3 * (2300 * (1u64 << mode)) + 2 * 575
}

/// Computes the conversion wait for an oversampling mode, in microseconds.
pub fn wait_micros(mode: u8) -> (r: u64)
    requires
        valid_mode(mode),
    ensures
        r == spec_wait_micros(mode),
{
    assert(1u64 << mode <= 32) by (bit_vector)
        requires
            mode <= 5,
    ;
    let pow: u64 = 1u64 << mode;
    1250 + 3 * (2300 * pow) + 2 * 575
}

/// The wait grows strictly with the oversampling mode: more averaging always
/// costs more latency.
pub proof fn lemma_wait_strictly_increasing(m1: u8, m2: u8)
    requires
        valid_mode(m1),
        valid_mode(m2),
        m1 < m2,
    ensures
        spec_wait_micros(m1) < spec_wait_micros(m2),
{
    assert(1u64 << m1 < 1u64 << m2) by (bit_vector)
        requires
            m1 < m2,
            m2 <= 5,
    ;
}

/// A raw twenty-bit reading assembled from the three data registers:
/// MSB, LSB and XLSB, with the low nibble of the XLSB discarded.
pub open spec fn spec_raw20(msb: u8, lsb: u8, xlsb: u8) -> u32 {
    (((msb as u32) << 16) | ((lsb as u32) << 8) | (xlsb as u32)) >> 4
}

/// Assembles the three raw data registers into the twenty-bit reading.
pub fn assemble_raw(msb: u8, lsb: u8, xlsb: u8) -> (r: u32)
    ensures
        r == spec_raw20(msb, lsb, xlsb),
        r < 0x100000,
{
    let r = (((msb as u32) << 16) | ((lsb as u32) << 8) | (xlsb as u32)) >> 4;
    assert((((msb as u32) << 16) | ((lsb as u32) << 8) | (xlsb as u32)) >> 4 < 0x100000)
        by (bit_vector);
    r
}

/// The measurement engine: one engine exclusively owns one bus device, the
/// calibration snapshot read from it at construction, and the oversampling
/// mode fixed at construction.
pub struct Bme280<T: BusDevice> {
    calibration: Calibration,
    device: T,
    mode: u8,
}

impl<T: BusDevice> Bme280<T> {
    /// The calibration snapshot the engine was constructed with.
    pub closed spec fn spec_calibration(self) -> Calibration {
        self.calibration
    }

    /// The engine's oversampling code.
    pub closed spec fn spec_mode(self) -> u8 {
        self.mode
    }

    /// A well-formed engine carries a valid oversampling code.
    pub open spec fn wf(self) -> bool {
        valid_mode(self.spec_mode())
    }

    /// Constructs an engine: reads the full calibration block, then writes
    /// the oversampling / run-mode byte to the control register.  Any bus
    /// failure in either step aborts construction: no partially initialized
    /// engine is ever returned, and no partial calibration is retained.
    pub fn new(device: T) -> (r: Result<Bme280<T>, BusError>)
        ensures
            r matches Ok(b) ==> b.wf() && b.spec_mode() == BME280_OSAMPLE_1,
    {
        let mut dev = device;
        let cal = match Self::get_calibration(&mut dev) {
            Ok(c) => c,
            Err(e) => {
                return Err(e);
            },
        };
        match dev.write_byte(Register::Control.addr(), MAX_OVER_SAMPLING_AND_NORMAL_MODE) {
            Ok(u) => u,
            Err(e) => {
                return Err(e);
            },
        };
        Ok(Bme280 { calibration: cal, device: dev, mode: BME280_OSAMPLE_1 })
    }

    /// Reads the eighteen calibration words in the fixed order
    /// T1, T2, T3, P1..P9, H1, H2, H3, H7.  The first failure aborts the
    /// whole load.
    fn get_calibration(dev: &mut T) -> Result<Calibration, BusError> {
        let t1 = dev.read_word(Register::T1.addr())?;
        let t2 = dev.read_word(Register::T2.addr())?;
        let t3 = dev.read_word(Register::T3.addr())?;

        let p1 = dev.read_word(Register::P1.addr())?;
        let p2 = dev.read_word(Register::P2.addr())?;
        let p3 = dev.read_word(Register::P3.addr())?;
        let p4 = dev.read_word(Register::P4.addr())?;
        let p5 = dev.read_word(Register::P5.addr())?;
        let p6 = dev.read_word(Register::P6.addr())?;
        let p7 = dev.read_word(Register::P7.addr())?;
        let p8 = dev.read_word(Register::P8.addr())?;
        let p9 = dev.read_word(Register::P9.addr())?;

        let h1 = dev.read_word(Register::H1.addr())?;
        let h2 = dev.read_word(Register::H2.addr())?;
        let h3 = dev.read_word(Register::H3.addr())?;
        let h7 = dev.read_word(Register::H7.addr())?;

        Ok(Calibration {
            t1,
            t2: as_signed(t2),
            t3: as_signed(t3),
            p1,
            p2: as_signed(p2),
            p3: as_signed(p3),
            p4: as_signed(p4),
            p5: as_signed(p5),
            p6: as_signed(p6),
            p7: as_signed(p7),
            p8: as_signed(p8),
            p9: as_signed(p9),
            h1,
            h2: as_signed(h2),
            h3,
            h7,
        })
    }

    /// Triggers a fresh conversion, waits out the settling time, and reads
    /// the raw temperature registers.
    fn read_raw_temp(&mut self) -> (r: Result<u32, BusError>)
        requires
            old(self).wf(),
        ensures
            final(self).wf(),
            final(self).spec_calibration() == old(self).spec_calibration(),
            final(self).spec_mode() == old(self).spec_mode(),
            r matches Ok(v) ==> v < 0x100000,
    {
        self.device.write_byte(Register::ControlHum.addr(), self.mode)?;
        let meas = control_byte(self.mode);
        self.device.write_byte(Register::Control.addr(), meas)?;
        let us = wait_micros(self.mode);
        self.device.wait(us);

        let msb = self.device.read_byte(Register::TempData.addr())?;
        let lsb = self.device.read_byte(Register::TempData1.addr())?;
        let xlsb = self.device.read_byte(Register::TempData2.addr())?;
        Ok(assemble_raw(msb, lsb, xlsb))
    }

    /// Runs a conversion and computes the shared intermediate `t_fine` from
    /// the raw temperature reading and the engine's calibration.
    fn calc_t_fine(&mut self) -> (r: Result<u64, BusError>)
        requires
            old(self).wf(),
        ensures
            final(self).wf(),
            final(self).spec_calibration() == old(self).spec_calibration(),
            final(self).spec_mode() == old(self).spec_mode(),
            r matches Ok(t) ==> exists|ut: u32|
                ut < 0x100000 && t == spec_t_fine(ut, old(self).spec_calibration()),
    {
        let ut = self.read_raw_temp()?;
        let t = t_fine_from_raw(ut, &self.calibration);
        proof {
            assert(ut < 0x100000 && t == spec_t_fine(ut, old(self).spec_calibration()));
        }
        Ok(t)
    }

    /// Reads the temperature, in Fahrenheit, as a binary64 bit pattern.
    /// Triggers one fresh conversion; on success the result is exactly the
    /// compensation pipeline applied to the raw reading that the device
    /// answered and the engine's calibration.
    pub fn read_temperature(&mut self) -> (r: Result<u64, BusError>)
        requires
            old(self).wf(),
        ensures
            final(self).wf(),
            final(self).spec_calibration() == old(self).spec_calibration(),
            final(self).spec_mode() == old(self).spec_mode(),
            r matches Ok(t) ==> exists|ut: u32|
                ut < 0x100000 && t == spec_temperature(ut, old(self).spec_calibration()),
    {
        let t_fine = self.calc_t_fine()?;
        let f = fahrenheit_from_t_fine(t_fine);
        proof {
            let ut = choose|ut: u32|
                ut < 0x100000 && t_fine == spec_t_fine(ut, old(self).spec_calibration());
            assert(ut < 0x100000 && f == spec_temperature(ut, old(self).spec_calibration()));
        }
        Ok(f)
    }

    /// Reads the raw pressure registers.  No conversion is triggered here:
    /// the pressure path triggers its own fresh conversion through
    /// `calc_t_fine`.
    fn read_raw_pressure(&mut self) -> (r: Result<u32, BusError>)
        requires
            old(self).wf(),
        ensures
            final(self).wf(),
            final(self).spec_calibration() == old(self).spec_calibration(),
            final(self).spec_mode() == old(self).spec_mode(),
            r matches Ok(v) ==> v < 0x100000,
    {
        let msb = self.device.read_byte(Register::PressureData.addr())?;
        let lsb = self.device.read_byte(Register::PressureData1.addr())?;
        let xlsb = self.device.read_byte(Register::PressureData2.addr())?;
        Ok(assemble_raw(msb, lsb, xlsb))
    }

    /// Reads the pressure, in inches of mercury, as a binary64 bit pattern.
    /// A fresh `t_fine` is recomputed through an additional temperature
    /// conversion; on success the result is exactly the pressure pipeline
    /// applied to the two raw readings the device answered and the engine's
    /// calibration.
    pub fn read_pressure(&mut self) -> (r: Result<u64, BusError>)
        requires
            old(self).wf(),
        ensures
            final(self).wf(),
            final(self).spec_calibration() == old(self).spec_calibration(),
            final(self).spec_mode() == old(self).spec_mode(),
            r matches Ok(p) ==> exists|adc: u32, ut: u32|
                adc < 0x100000 && ut < 0x100000 && p == spec_pressure(
                    adc,
                    spec_t_fine(ut, old(self).spec_calibration()),
                    old(self).spec_calibration(),
                ),
    {
        let adc = self.read_raw_pressure()?;
        let t_fine = self.calc_t_fine()?;
        let p = pressure_from_raw(adc, t_fine, &self.calibration);
        proof {
            let ut = choose|ut: u32|
                ut < 0x100000 && t_fine == spec_t_fine(ut, old(self).spec_calibration());
            assert(adc < 0x100000 && ut < 0x100000 && p == spec_pressure(
                adc,
                spec_t_fine(ut, old(self).spec_calibration()),
                old(self).spec_calibration(),
            ));
        }
        Ok(p)
    }
}

} // verus!
