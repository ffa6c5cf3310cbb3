//! The measurement and status decoder: big-endian numeric decoding of
//! response bodies and the status-flag derivation.

use vstd::prelude::*;

use crate::register_access::StatusRegisterBits;
use crate::types::AirInfo;
use crate::types::StatusRegisterResult;

verus! {

/// The big-endian 32-bit value of the 4 bytes `b0 b1 b2 b3`.
pub open spec fn be_u32(b0: u8, b1: u8, b2: u8, b3: u8) -> u32 {
    (((b0 as int) * 0x1000000 + (b1 as int) * 0x10000 + (b2 as int) * 0x100 + (b3 as int)) as u32)
}

/// The big-endian 32-bit value of the 4 bytes of `d` starting at `off`.
pub open spec fn be_u32_at(d: Seq<u8>, off: int) -> u32 {
    be_u32(d[off], d[off + 1], d[off + 2], d[off + 3])
}

/// The 4 big-endian bytes of the 32-bit value `n`, most significant first.
pub open spec fn be_bytes(n: u32) -> Seq<u8> {
    seq![
        ((n as int / 0x1000000) as u8),
        ((n as int / 0x10000 % 0x100) as u8),
        ((n as int / 0x100 % 0x100) as u8),
        ((n as int % 0x100) as u8),
    ]
}

/// Decode the big-endian 32-bit value at offset `off` of a decoded response
/// body.
pub fn decode_u32(data: &Vec<u8>, off: usize) -> (r: u32)
    requires
        off + 4 <= data@.len(),
    ensures
        r == be_u32_at(data@, off as int),
{
    let n = data.len();
    proof {
        assert(off + 4 <= n);
    }
    let b0 = data[off] as u32;
    let b1 = data[off + 1] as u32;
    let b2 = data[off + 2] as u32;
    let b3 = data[off + 3] as u32;
    b0 * 0x1000000 + b1 * 0x10000 + b2 * 0x100 + b3
}

/// Encode the 32-bit value `n` as its 4 big-endian bytes.
pub fn encode_u32(n: u32) -> (r: Vec<u8>)
    ensures
        r@ == be_bytes(n),
        r@.len() == 4,
        be_u32_at(r@, 0) == n,
{
    let mut r: Vec<u8> = Vec::new();
    r.push((n / 0x1000000) as u8);
    r.push((n / 0x10000 % 0x100) as u8);
    r.push((n / 0x100 % 0x100) as u8);
    r.push((n % 0x100) as u8);
    proof {
        assert(r@ =~= be_bytes(n));
        assert(be_u32_at(r@, 0) == n) by (nonlinear_arith)
            requires
                r@ == be_bytes(n),
        ;
    }
    r
}

/// The measurement record held in the first 40 bytes of a decoded response
/// body: ten big-endian 32-bit fields in the fixed order of the record.
pub open spec fn air_info_of(d: Seq<u8>) -> AirInfo {
    AirInfo {
        mass_pm1_0: be_u32_at(d, 0),
        mass_pm2_5: be_u32_at(d, 4),
        mass_pm4_0: be_u32_at(d, 8),
        mass_pm10: be_u32_at(d, 12),
        number_pm0_5: be_u32_at(d, 16),
        number_pm1_0: be_u32_at(d, 20),
        number_pm2_5: be_u32_at(d, 24),
        number_pm4_0: be_u32_at(d, 28),
        number_pm10: be_u32_at(d, 32),
        typical_size: be_u32_at(d, 36),
    }
}

/// Decode a measurement record from the first 40 bytes of a decoded response
/// body.
pub fn decode_air_info(data: &Vec<u8>) -> (r: AirInfo)
    requires
        data@.len() >= 40,
    ensures
        r == air_info_of(data@),
{
    AirInfo {
        mass_pm1_0: decode_u32(data, 0),
        mass_pm2_5: decode_u32(data, 4),
        mass_pm4_0: decode_u32(data, 8),
        mass_pm10: decode_u32(data, 12),
        number_pm0_5: decode_u32(data, 16),
        number_pm1_0: decode_u32(data, 20),
        number_pm2_5: decode_u32(data, 24),
        number_pm4_0: decode_u32(data, 28),
        number_pm10: decode_u32(data, 32),
        typical_size: decode_u32(data, 36),
    }
}

/// The three status flags derived from the 32-bit status register word.
/// `false` is OK.
pub open spec fn status_of(v: u32) -> StatusRegisterResult {
    StatusRegisterResult {
        speed: v & StatusRegisterBits::SPEED != 0,
        laser: v & StatusRegisterBits::LASER != 0,
        fan: v & StatusRegisterBits::FAN != 0,
    }
}

/// Derive the three status flags from the 32-bit status register word.
pub fn decode_status(v: u32) -> (r: StatusRegisterResult)
    ensures
        r == status_of(v),
{
    StatusRegisterResult {
        speed: v & StatusRegisterBits::SPEED != 0,
        laser: v & StatusRegisterBits::LASER != 0,
        fan: v & StatusRegisterBits::FAN != 0,
    }
}

} // verus!
