//! The register catalog: the 2-byte command word of every sensor operation,
//! the device's fixed bus address, and the bit masks of the status register.

use vstd::prelude::*;

verus! {

/// The fixed bus address of the device.
pub const DEV_ADDR: u8 = 0x69;

/// The catalog of 2-byte command words, one per sensor operation.
pub struct Register {}

impl Register {
    /// Enter measurement mode.
    pub const START_MEASUREMENT: [u8; 2] = [0x00, 0x10];

    /// Exit measurement mode.
    pub const STOP_MEASUREMENT: [u8; 2] = [0x01, 0x04];

    /// Poll for the availability of new measurements.
    pub const READ_DATA_READY_FLAG: [u8; 2] = [0x02, 0x02];

    /// Read the measured values.
    pub const READ_MEASURED_VALUES: [u8; 2] = [0x03, 0x00];

    /// Enter sleep mode.
    pub const SLEEP: [u8; 2] = [0x10, 0x01];

    /// Exit sleep mode.
    pub const WAKE_UP: [u8; 2] = [0x11, 0x03];

    /// Start the fan cleaning manually.
    pub const START_FAN_CLEANING: [u8; 2] = [0x56, 0x07];

    /// Read or write the interval of the periodic fan cleaning (shared
    /// opcode; a write carries the interval as its argument word).
    pub const READ_WRITE_AUTO_CLEANING_INTERVAL: [u8; 2] = [0x80, 0x04];

    /// Read the device product type.
    pub const READ_DEVICE_PRODUCT_TYPE: [u8; 2] = [0xD0, 0x02];

    /// Read the device serial number.
    pub const READ_DEVICE_SERIAL_NUMBER: [u8; 2] = [0xD0, 0x33];

    /// Read the firmware version.
    pub const READ_FIRMWARE_VERSION: [u8; 2] = [0xD1, 0x00];

    /// Read the device status register.
    pub const READ_DEVICE_STATUS_REGISTER: [u8; 2] = [0xD2, 0x06];

    /// Clear the device status register.
    pub const CLEAR_DEVICE_STATUS_REGISTER: [u8; 2] = [0xD2, 0x10];

    /// Reset the device.
    pub const DEVICE_RESET: [u8; 2] = [0xD3, 0x04];
}

/// The bit masks applied to the 32-bit status register word.
pub struct StatusRegisterBits {}

impl StatusRegisterBits {
    /// Fan speed out of range.
    pub const SPEED: u32 = 1u32 << 21;

    /// Laser failure.
    pub const LASER: u32 = 1u32 << 5;

    /// Fan failure.
    pub const FAN: u32 = 1u32 << 4;
}

} // verus!
