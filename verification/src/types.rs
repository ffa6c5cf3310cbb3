//! The error type and the decoded value types of the driver.

use vstd::prelude::*;

verus! {

/// All possible errors in this crate. An operation either fully completes or
/// reports exactly one of these; none is retried or suppressed internally.
#[derive(Debug)]
pub enum Error<E> {
    /// Bus transport error, passed through from the bus collaborator
    /// unmodified.
    I2C(E),
    /// A checksum byte of an inbound frame failed validation.
    ChecksumMismatch,
}

/// One measurement record: ten 32-bit fields in fixed order, four mass
/// concentrations, then five number concentrations, then the typical particle
/// size. Each field holds the raw big-endian-decoded IEEE-754
/// single-precision bit pattern exactly as the device sent it; interpreting
/// the bits as a floating-point number is left to the caller.
#[derive(Clone, Copy, Debug, PartialEq, Eq, Structural)]
pub struct AirInfo {
    /// Mass concentration PM1.0, raw bits.
    pub mass_pm1_0: u32,
    /// Mass concentration PM2.5, raw bits.
    pub mass_pm2_5: u32,
    /// Mass concentration PM4.0, raw bits.
    pub mass_pm4_0: u32,
    /// Mass concentration PM10, raw bits.
    pub mass_pm10: u32,
    /// Number concentration PM0.5, raw bits.
    pub number_pm0_5: u32,
    /// Number concentration PM1.0, raw bits.
    pub number_pm1_0: u32,
    /// Number concentration PM2.5, raw bits.
    pub number_pm2_5: u32,
    /// Number concentration PM4.0, raw bits.
    pub number_pm4_0: u32,
    /// Number concentration PM10, raw bits.
    pub number_pm10: u32,
    /// Typical particle size, raw bits.
    pub typical_size: u32,
}

/// Device status register flags. `false` is OK, `true` indicates a problem.
#[derive(Clone, Copy, Debug, PartialEq, Eq, Structural)]
pub struct StatusRegisterResult {
    /// Fan speed out of range.
    pub speed: bool,
    /// Laser failure.
    pub laser: bool,
    /// Fan failure: the fan is mechanically blocked or broken.
    pub fan: bool,
}

} // verus!
