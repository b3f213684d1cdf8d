//! LPS25H barometer: its five output registers, read from the pressure base
//! address with auto-increment, decoded into pressure and temperature.

use vstd::prelude::*;

use crate::arith::{abs, div_toward_zero, quot};
use crate::le::{i16_from_le, i16_le, i24_from_le, i24_le};

verus! {

/// Pressure in whole hPa from the two's-complement 24-bit output at bytes
/// 0..3 (4096 LSB per hPa), sign extended and divided with truncation
/// toward zero.
pub open spec fn lps25h_pressure(b: Seq<u8>) -> int
    recommends
        b.len() == 5,
{
    quot(i24_le(b[0], b[1], b[2]), 4096)
}

/// Temperature in tenths of a degree Celsius from the signed 16-bit output at
/// bytes 3..5: 42.5 degrees at zero and 480 LSB per degree, so 48 per tenth.
pub open spec fn lps25h_temperature(b: Seq<u8>) -> int
    recommends
        b.len() == 5,
{
    425 + quot(i16_le(b[3], b[4]), 48)
}

/// Decodes a raw output block into `(pressure in hPa, temperature in 0.1 C)`.
pub fn decode_lps25h(raw: &[u8; 5]) -> (r: (i32, i32))
    ensures
        r.0 == lps25h_pressure(raw@),
        r.1 == lps25h_temperature(raw@),
        -2048 <= r.0 <= 2047,
{
    let press_raw: i32 = i24_from_le(raw[0], raw[1], raw[2]);
    let temp_raw: i16 = i16_from_le(raw[3], raw[4]);
    let pressure: i32 = div_toward_zero(press_raw, 4096);
    proof {
        let x = press_raw as int;
        let ax = abs(x);
        assert(ax / 4096 <= 2048) by (nonlinear_arith)
            requires
                0 <= ax <= 0x80_0000,
        ;
        assert(x >= 0 ==> x / 4096 <= 2047) by (nonlinear_arith)
            requires
                x < 0x80_0000,
        ;
    }
    let temperature: i32 = 425 + div_toward_zero(temp_raw as i32, 48);
    (pressure, temperature)
}

/// Decoding depends on the bytes alone: equal output blocks give equal
/// readings.
pub proof fn lemma_lps25h_deterministic(raw1: Seq<u8>, raw2: Seq<u8>)
    requires
        raw1.len() == 5,
        raw1 == raw2,
    ensures
        lps25h_pressure(raw1) == lps25h_pressure(raw2),
        lps25h_temperature(raw1) == lps25h_temperature(raw2),
{
}

} // verus!
