//! Protocol driver for the SPS30 particulate-matter sensor.
//!
//! The sensor is addressed over a two-wire serial bus with an
//! address/register command protocol. Every logical operation (start
//! measuring, read status, read the auto-cleaning interval, ...) is framed as
//! a 2-byte command word, optionally followed by 2-byte argument words, each
//! argument word protected by an 8-bit checksum. Responses arrive as 2-byte
//! data words, each likewise followed by a checksum byte.
//!
//! The crate is organised leaf-first:
//! - `crc`: the checksum engine, a CRC-8 over exactly one 2-byte word;
//! - `codec`: the frame codec that inserts checksum bytes into outbound
//!   buffers and validates and strips them from inbound buffers;
//! - `register_access`: the catalog of command words and status bit masks;
//! - `decode`: big-endian numeric decoding and the status-flag derivation;
//! - `types`: the error type and the decoded value types;
//! - `bus`: the contracts expected of the bus and delay collaborators;
//! - `sps30`: the device session, one method per sensor operation.
//!
//! Every operation's contract is stated over the collaborators' abstract
//! transaction logs: what bytes the operation writes, what settle time it
//! requests, and how its result decodes from whatever frame the bus
//! delivered.

mod bus;
mod codec;
mod crc;
mod decode;
mod register_access;
mod sps30;
mod types;

pub use bus::bus_read;
pub use bus::bus_write;
pub use bus::BusOp;
pub use bus::BusLog;
pub use bus::DelayMs;
pub use bus::WaitLog;
pub use bus::I2cBus;

pub use codec::add_crc;
pub use codec::check_crc;
pub use codec::encoded;
pub use codec::frame_ok;
pub use codec::framed;
pub use codec::lemma_frame_roundtrip;
pub use codec::lemma_tamper_detected;
pub use codec::remove_crc;
pub use codec::stripped;
pub use crc::calc_crc;
pub use crc::calc_crc_pair;
pub use crc::crc8;
pub use crc::lemma_crc_known_vector;
pub use decode::air_info_of;
pub use decode::be_bytes;
pub use decode::be_u32;
pub use decode::be_u32_at;
pub use decode::decode_air_info;
pub use decode::decode_status;
pub use decode::decode_u32;
pub use decode::encode_u32;
pub use decode::status_of;
pub use register_access::Register;
pub use register_access::StatusRegisterBits;
pub use register_access::DEV_ADDR;
pub use sps30::Sps30;
pub use types::AirInfo;
pub use types::Error;
pub use types::StatusRegisterResult;
