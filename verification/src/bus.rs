//! The bus device capability that the measurement engine consumes.
//!
//! The physical transport is supplied by the platform: it implements
//! [`BusDevice`] over whatever serial bus driver it has.  The engine owns its
//! device exclusively, so every operation takes `&mut self`.

use vstd::prelude::*;

verus! {

/// A transport-level bus failure: the single error taxonomy of the driver.
/// Every engine operation propagates it unchanged; there is no local retry
/// and no partial result.
#[derive(Clone, Copy, Debug, PartialEq, Eq, Structural)]
pub enum BusError {
    /// The addressed register is not valid on this device.
    InvalidRegister,
    /// The device did not acknowledge the transfer.
    Nack,
    /// Any other fault of the underlying transport.
    Io,
}

/// A register-addressed bus device, together with the platform's timed wait.
///
/// Nothing is assumed of the values a device returns: the engine's contracts
/// hold for every implementation, whatever the device answers.
pub trait BusDevice: Sized {
    /// Reads one byte from the register at address `reg`.
    fn read_byte(&mut self, reg: u8) -> Result<u8, BusError>;

    /// Writes one byte to the register at address `reg`.
    fn write_byte(&mut self, reg: u8, value: u8) -> Result<(), BusError>;

    /// Reads one little-endian sixteen-bit word from the register at `reg`.
    fn read_word(&mut self, reg: u8) -> Result<u16, BusError>;

    /// Blocks the calling thread for at least `micros` microseconds.
    fn wait(&mut self, micros: u64);
}

} // verus!
