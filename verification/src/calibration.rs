//! The calibration store: the factory-programmed compensation coefficients.

use vstd::prelude::*;

verus! {

/// The eighteen calibration constants programmed into the sensor at the
/// factory.  They are read once, when the sensor is initialized, and then
/// never change for the sensor's operational lifetime.
#[derive(Clone, Copy, Debug, PartialEq, Eq, Structural)]
pub struct Calibration {
    pub t1: u16,
    pub t2: i16,
    pub t3: i16,

    pub p1: u16,
    pub p2: i16,
    pub p3: i16,
    pub p4: i16,
    pub p5: i16,
    pub p6: i16,
    pub p7: i16,
    pub p8: i16,
    pub p9: i16,

    pub h1: u16,
    pub h2: i16,
    pub h3: u16,
    pub h7: u16,
}

/// A calibration word reinterpreted as a signed sixteen-bit coefficient, as
/// the sensor's memory map prescribes for the signed constants.
pub open spec fn spec_as_signed(w: u16) -> i16 {
    w as i16
}

/// Reinterprets a calibration word as a signed coefficient.
pub fn as_signed(w: u16) -> (r: i16)
    ensures
        r == spec_as_signed(w),
{
    w as i16
}

} // verus!
