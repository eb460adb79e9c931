use bme280::bme280::{
    assemble_raw, control_byte, wait_micros, Bme280, BME280_OSAMPLE_1, BME280_OSAMPLE_16,
    BME280_OSAMPLE_2, BME280_OSAMPLE_4, BME280_OSAMPLE_8, MAX_OVER_SAMPLING_AND_NORMAL_MODE,
};
use bme280::bus::{BusDevice, BusError};
use bme280::calibration::{as_signed, Calibration};
use bme280::compensation::{pressure_from_raw, t_fine_from_raw, temperature_from_raw};
use bme280::register::Register;

struct FakeDevice {}

impl BusDevice for FakeDevice {
    fn read_byte(&mut self, reg: u8) -> Result<u8, BusError> {
        match reg {
            r if r == Register::TempData.addr() => Ok(129),
            r if r == Register::TempData1.addr() => Ok(142),
            r if r == Register::TempData2.addr() => Ok(0),
            r if r == Register::PressureData.addr() => Ok(92),
            r if r == Register::PressureData1.addr() => Ok(215),
            r if r == Register::PressureData2.addr() => Ok(112),
            _ => Err(BusError::InvalidRegister),
        }
    }

    fn write_byte(&mut self, _reg: u8, _value: u8) -> Result<(), BusError> {
        Ok(())
    }

    fn read_word(&mut self, reg: u8) -> Result<u16, BusError> {
        match reg {
            r if r == Register::T1.addr() => Ok(28960),
            r if r == Register::T2.addr() => Ok(26619),
            r if r == Register::T3.addr() => Ok(26619),
            r if r == Register::P1.addr() => Ok(34988),
            r if r == Register::P2.addr() => Ok(54823),
            r if r == Register::P3.addr() => Ok(3024),
            r if r == Register::P4.addr() => Ok(5831),
            r if r == Register::P5.addr() => Ok(96),
            r if r == Register::P6.addr() => Ok(65529),
            r if r == Register::P7.addr() => Ok(9900),
            r if r == Register::P8.addr() => Ok(55306),
            r if r == Register::P9.addr() => Ok(4285),
            r if r == Register::H1.addr() => Ok(28960),
            r if r == Register::H2.addr() => Ok(28960),
            r if r == Register::H3.addr() => Ok(28960),
            r if r == Register::H7.addr() => Ok(28960),
            _ => Err(BusError::InvalidRegister),
        }
    }

    fn wait(&mut self, _micros: u64) {}
}

/// A device whose word reads all fail: calibration load cannot start.
struct FailingDevice {
    err: BusError,
}

impl BusDevice for FailingDevice {
    fn read_byte(&mut self, _reg: u8) -> Result<u8, BusError> {
        Err(self.err)
    }

    fn write_byte(&mut self, _reg: u8, _value: u8) -> Result<(), BusError> {
        Err(self.err)
    }

    fn read_word(&mut self, _reg: u8) -> Result<u16, BusError> {
        Err(self.err)
    }

    fn wait(&mut self, _micros: u64) {}
}

/// A device that answers the fixture words until the register at `fail_at`,
/// then fails: the calibration load breaks in the middle.
struct PartFailDevice {
    fail_at: u8,
}

impl BusDevice for PartFailDevice {
    fn read_byte(&mut self, _reg: u8) -> Result<u8, BusError> {
        Err(BusError::Io)
    }

    fn write_byte(&mut self, _reg: u8, _value: u8) -> Result<(), BusError> {
        Ok(())
    }

    fn read_word(&mut self, reg: u8) -> Result<u16, BusError> {
        if reg == self.fail_at {
            Err(BusError::Nack)
        } else {
            Ok(28960)
        }
    }

    fn wait(&mut self, _micros: u64) {}
}

fn fixture_calibration() -> Calibration {
    Calibration {
        t1: 28960,
        t2: 26619,
        t3: 26619,
        p1: 34988,
        p2: as_signed(54823),
        p3: 3024,
        p4: 5831,
        p5: 96,
        p6: as_signed(65529),
        p7: 9900,
        p8: as_signed(55306),
        p9: 4285,
        h1: 28960,
        h2: 28960,
        h3: 28960,
        h7: 28960,
    }
}

#[test]
fn set_of_known_calibration_values_should_yield_known_temperature() {
    let mut bme = Bme280::new(FakeDevice {}).unwrap();

    let t = f64::from_bits(bme.read_temperature().unwrap());
    println!("Temperature is: {}", t);
    assert!((t - 72.91).abs() < 0.01);
}

#[test]
fn set_of_known_calibration_values_should_yield_known_pressure() {
    let mut bme = Bme280::new(FakeDevice {}).unwrap();

    let p = f64::from_bits(bme.read_pressure().unwrap());
    println!("Pressure is: {} inhg.", p);
    assert!((p - 30.20).abs() < 0.01);
}

#[test]
fn temperature_pipeline_matches_native_float_arithmetic() {
    let cal = fixture_calibration();
    let ut: u32 = assemble_raw(129, 142, 0);
    let bits = temperature_from_raw(ut, &cal);

    let utf = ut as f64;
    let t1 = 28960.0f64;
    let t2 = 26619.0f64;
    let t3 = 26619.0f64;
    let var1 = (utf / 16384.0 - t1 / 1024.0) * t2;
    let d = utf / 131072.0 - t1 / 8192.0;
    let var2 = (d * d) * t3;
    let t_fine = var1 + var2;
    let expected = (t_fine / 5120.0) * 1.8 + 32.0;
    assert_eq!(bits, expected.to_bits());
}

#[test]
fn pressure_pipeline_matches_native_float_arithmetic() {
    let cal = fixture_calibration();
    let ut: u32 = assemble_raw(129, 142, 0);
    let adc: u32 = assemble_raw(92, 215, 112);
    let t_fine_bits = t_fine_from_raw(ut, &cal);
    let bits = pressure_from_raw(adc, t_fine_bits, &cal);

    let t_fine = f64::from_bits(t_fine_bits);
    let p1 = 34988.0f64;
    let p2 = -10713.0f64;
    let p3 = 3024.0f64;
    let p4 = 5831.0f64;
    let p5 = 96.0f64;
    let p6 = -7.0f64;
    let p7 = 9900.0f64;
    let p8 = -10230.0f64;
    let p9 = 4285.0f64;
    let var1 = t_fine / 2.0 - 64000.0;
    let var2 = var1 * var1 * p6 / 32768.0;
    let var2_2 = var2 + var1 * p5 * 2.0;
    let var2_3 = var2_2 / 4.0 + p4 * 65536.0;
    let var1_2 = (p3 * var1 * var1 / 524288.0 + p2 * var1) / 524288.0;
    let var1_3 = (1.0 + var1_2 / 32768.0) * p1;
    let p = 1048576.0 - adc as f64;
    let p_2 = ((p - var2_3 / 4096.0) * 6250.0) / var1_3;
    let var1_4 = p9 * p_2 * p_2 / 2147483648.0;
    let var2_4 = p_2 * p8 / 32768.0;
    let pascals = p_2 + (var1_4 + var2_4 + p7) / 16.0;
    let expected = pascals * 0.000295299830714;
    assert_eq!(bits, expected.to_bits());
}

#[test]
fn zero_pressure_divisor_yields_exactly_zero() {
    let mut cal = fixture_calibration();
    cal.p1 = 0;
    let ut: u32 = assemble_raw(129, 142, 0);
    let adc: u32 = assemble_raw(92, 215, 112);
    let t_fine_bits = t_fine_from_raw(ut, &cal);
    let bits = pressure_from_raw(adc, t_fine_bits, &cal);
    assert_eq!(bits, 0u64);
    assert_eq!(f64::from_bits(bits), 0.0);
}

#[test]
fn bus_failure_during_calibration_load_prevents_construction() {
    assert_eq!(Bme280::new(FailingDevice { err: BusError::Io }).err().unwrap(), BusError::Io);
    assert_eq!(Bme280::new(FailingDevice { err: BusError::Nack }).err().unwrap(), BusError::Nack);
    assert_eq!(
        Bme280::new(FailingDevice { err: BusError::InvalidRegister }).err().unwrap(),
        BusError::InvalidRegister,
    );
}

#[test]
fn bus_failure_in_the_middle_of_calibration_load_prevents_construction() {
    let dev = PartFailDevice { fail_at: Register::P5.addr() };
    assert_eq!(Bme280::new(dev).err().unwrap(), BusError::Nack);
    let dev = PartFailDevice { fail_at: Register::H7.addr() };
    assert_eq!(Bme280::new(dev).err().unwrap(), BusError::Nack);
}

/// Calibration words answer, but the raw data registers do not.
struct NoDataDevice {}

impl BusDevice for NoDataDevice {
    fn read_byte(&mut self, _reg: u8) -> Result<u8, BusError> {
        Err(BusError::Nack)
    }

    fn write_byte(&mut self, _reg: u8, _value: u8) -> Result<(), BusError> {
        Ok(())
    }

    fn read_word(&mut self, _reg: u8) -> Result<u16, BusError> {
        Ok(28960)
    }

    fn wait(&mut self, _micros: u64) {}
}

#[test]
fn bus_failure_during_measurement_propagates() {
    let mut bme = Bme280::new(NoDataDevice {}).unwrap();
    assert_eq!(bme.read_temperature().err().unwrap(), BusError::Nack);
    assert_eq!(bme.read_pressure().err().unwrap(), BusError::Nack);
}

#[test]
fn two_reads_with_identical_fixtures_are_bit_identical() {
    let mut bme = Bme280::new(FakeDevice {}).unwrap();
    let first = bme.read_temperature().unwrap();
    let second = bme.read_temperature().unwrap();
    assert_eq!(first, second);

    let p_first = bme.read_pressure().unwrap();
    let p_second = bme.read_pressure().unwrap();
    assert_eq!(p_first, p_second);
}

#[test]
fn raw_reading_assembles_twenty_bits() {
    assert_eq!(assemble_raw(129, 142, 0), 530656);
    assert_eq!(assemble_raw(92, 215, 112), 380279);
    assert_eq!(assemble_raw(0, 0, 0), 0);
    assert_eq!(assemble_raw(255, 255, 255), 0xFFFFF);
}

#[test]
fn control_byte_combines_mode_fields_and_run_bit() {
    assert_eq!(control_byte(1), 0b0010_0101);
    assert_eq!(control_byte(5), 0b1011_0101);
    assert_eq!(MAX_OVER_SAMPLING_AND_NORMAL_MODE, 0x3F);
}

#[test]
fn wait_duration_is_strictly_increasing_in_mode() {
    let modes: [u8; 5] = [
        BME280_OSAMPLE_1,
        BME280_OSAMPLE_2,
        BME280_OSAMPLE_4,
        BME280_OSAMPLE_8,
        BME280_OSAMPLE_16,
    ];
    let expected: [u64; 5] = [16200, 30000, 57600, 112800, 223200];
    for i in 0..5 {
        assert_eq!(wait_micros(modes[i]), expected[i]);
        if i > 0 {
            assert!(wait_micros(modes[i - 1]) < wait_micros(modes[i]));
        }
    }
}

#[test]
fn signed_calibration_words_reinterpret_the_raw_bits() {
    assert_eq!(as_signed(54823), -10713);
    assert_eq!(as_signed(65529), -7);
    assert_eq!(as_signed(55306), -10230);
    assert_eq!(as_signed(96), 96);
    assert_eq!(as_signed(0x8000), i16::MIN);
    assert_eq!(as_signed(0x7FFF), i16::MAX);
}

#[test]
fn register_addresses_match_the_memory_map() {
    assert_eq!(Register::Id.addr(), 0xD0);
    assert_eq!(Register::Reset.addr(), 0xE0);
    assert_eq!(Register::T1.addr(), 0x88);
    assert_eq!(Register::T2.addr(), 0x8A);
    assert_eq!(Register::T3.addr(), 0x8C);
    assert_eq!(Register::P1.addr(), 0x8E);
    assert_eq!(Register::P9.addr(), 0x9E);
    assert_eq!(Register::H1.addr(), 0xA1);
    assert_eq!(Register::H2.addr(), 0xE1);
    assert_eq!(Register::H3.addr(), 0xE3);
    assert_eq!(Register::H7.addr(), 0xE7);
    assert_eq!(Register::ControlHum.addr(), 0xF2);
    assert_eq!(Register::Control.addr(), 0xF4);
    assert_eq!(Register::Config.addr(), 0xF5);
    assert_eq!(Register::PressureData.addr(), 0xF7);
    assert_eq!(Register::TempData.addr(), 0xFA);
    assert_eq!(Register::TempData2.addr(), 0xFC);
}
