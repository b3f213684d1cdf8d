//! HTS221 humidity sensor: its factory calibration block and its output
//! registers, decoded by two-point linear interpolation into relative
//! humidity and temperature.

use vstd::prelude::*;

use crate::arith::{abs, clamp, clamp_i32, div_toward_zero, lemma_quot_bounded, quot};
use crate::le::{i16_from_le, i16_le};

verus! {

/// The calibration fields of the HTS221, in the units the interpolation uses:
/// humidity reference points in whole %RH, temperature reference points in
/// whole degrees Celsius, and the raw outputs the sensor gave at each of them.
#[derive(Clone, Copy, Debug, PartialEq, Eq, Structural)]
pub struct Calibration {
    pub h0_rh: u8,
    pub h1_rh: u8,
    pub t0_deg_c: u16,
    pub t1_deg_c: u16,
    pub h0_t0_out: i16,
    pub h1_t0_out: i16,
    pub t0_out: i16,
    pub t1_out: i16,
}

/// The 10-bit reference temperature `T0_degC_x8`: byte 2 with bits 0-1 of
/// byte 5 above it.
pub open spec fn t0_deg_c_x8(b: Seq<u8>) -> int {
    b[2] + 256 * (b[5] % 4)
}

/// The 10-bit reference temperature `T1_degC_x8`: byte 3 with bits 2-3 of
/// byte 5 above it.
pub open spec fn t1_deg_c_x8(b: Seq<u8>) -> int {
    b[3] + 256 * ((b[5] / 4) % 4)
}

/// The calibration fields held by a 16-byte block read from the first
/// calibration register on: humidity points are stored in half units and
/// temperature points in eighths, both truncated to whole units here.
pub open spec fn calibration_of(b: Seq<u8>) -> Calibration
    recommends
        b.len() == 16,
{
    Calibration {
        h0_rh: (b[0] / 2) as u8,
        h1_rh: (b[1] / 2) as u8,
        t0_deg_c: (t0_deg_c_x8(b) / 8) as u16,
        t1_deg_c: (t1_deg_c_x8(b) / 8) as u16,
        h0_t0_out: i16_le(b[6], b[7]) as i16,
        h1_t0_out: i16_le(b[10], b[11]) as i16,
        t0_out: i16_le(b[12], b[13]) as i16,
        t1_out: i16_le(b[14], b[15]) as i16,
    }
}

impl Calibration {
    /// The ranges the extracted fields fall in: a halved byte and a 10-bit
    /// value divided by eight are both at most 127.
    pub open spec fn wf(self) -> bool {
        &&& self.h0_rh <= 127
        &&& self.h1_rh <= 127
        &&& self.t0_deg_c <= 127
        &&& self.t1_deg_c <= 127
    }

    /// Temperature in tenths of a degree for the raw output `t_out`: the line
    /// through `(t0_out, t0_deg_c)` and `(t1_out, t1_deg_c)`, scaled by ten
    /// before the truncating division. A degenerate span gives `t0_deg_c`.
    pub open spec fn temperature_spec(self, t_out: int) -> int {
        if self.t1_out == self.t0_out {
            self.t0_deg_c * 10
        } else {
            quot(
                (t_out - self.t0_out) * ((self.t1_deg_c - self.t0_deg_c) * 10),
                self.t1_out - self.t0_out,
            ) + self.t0_deg_c * 10
        }
    }

    /// Relative humidity in whole %RH for the raw output `h_out`: the line
    /// through `(h0_t0_out, h0_rh)` and `(h1_t0_out, h1_rh)`, truncated. A
    /// degenerate span gives `h0_rh`.
    pub open spec fn humidity_whole_spec(self, h_out: int) -> int {
        if self.h1_t0_out == self.h0_t0_out {
            self.h0_rh as int
        } else {
            quot((h_out - self.h0_t0_out) * (self.h1_rh - self.h0_rh), self.h1_t0_out - self.h0_t0_out)
                + self.h0_rh
        }
    }

    /// Relative humidity in tenths of a percent: the whole-unit value scaled
    /// by ten, then held to `[0, 1000]`.
    pub open spec fn humidity_spec(self, h_out: int) -> int {
        clamp(self.humidity_whole_spec(h_out) * 10, 0, 1000)
    }

    /// Extracts the calibration fields from the 16-byte calibration block.
    pub fn from_bytes(calib: &[u8; 16]) -> (c: Calibration)
        ensures
            c == calibration_of(calib@),
            c.wf(),
    {
        let b2 = calib[2];
        let b3 = calib[3];
        let b5 = calib[5];
        let t0_x8: u16 = (b2 as u16) | (((b5 & 0x03u8) as u16) << 8u16);
        let t1_x8: u16 = (b3 as u16) | (((b5 & 0x0Cu8) as u16) << 6u16);
        assert(((b2 as u16) | (((b5 & 0x03u8) as u16) << 8u16)) == b2 + 256 * (b5 % 4))
            by (bit_vector);
        assert(((b3 as u16) | (((b5 & 0x0Cu8) as u16) << 6u16)) == b3 + 256 * ((b5 / 4) % 4))
            by (bit_vector);
        Calibration {
            h0_rh: calib[0] / 2,
            h1_rh: calib[1] / 2,
            t0_deg_c: t0_x8 / 8,
            t1_deg_c: t1_x8 / 8,
            h0_t0_out: i16_from_le(calib[6], calib[7]),
            h1_t0_out: i16_from_le(calib[10], calib[11]),
            t0_out: i16_from_le(calib[12], calib[13]),
            t1_out: i16_from_le(calib[14], calib[15]),
        }
    }

    /// Temperature in tenths of a degree Celsius for the raw output `t_out`.
    pub fn temperature(&self, t_out: i16) -> (r: i32)
        requires
            self.wf(),
        ensures
            r == self.temperature_spec(t_out as int),
            self.t1_out == self.t0_out ==> r == self.t0_deg_c * 10,
    {
        if self.t1_out != self.t0_out {
            let dt: i32 = t_out as i32 - self.t0_out as i32;
            let dc: i32 = (self.t1_deg_c as i32 - self.t0_deg_c as i32) * 10;
            assert(abs(dt * dc) <= 65535 * 1270) by (nonlinear_arith)
                requires
                    -65535 <= dt <= 65535,
                    -1270 <= dc <= 1270,
            ;
            let num: i32 = dt * dc;
            let span: i32 = self.t1_out as i32 - self.t0_out as i32;
            proof {
                lemma_quot_bounded(num as int, span as int);
            }
            div_toward_zero(num, span) + self.t0_deg_c as i32 * 10
        } else {
            self.t0_deg_c as i32 * 10
        }
    }

    /// Relative humidity in whole %RH for the raw output `h_out`, before
    /// scaling and clamping.
    pub fn humidity_whole(&self, h_out: i16) -> (r: i32)
        requires
            self.wf(),
        ensures
            r == self.humidity_whole_spec(h_out as int),
            abs(r as int) <= 65535 * 127 + 127,
            self.h1_t0_out == self.h0_t0_out ==> r == self.h0_rh,
    {
        if self.h1_t0_out != self.h0_t0_out {
            let dh: i32 = h_out as i32 - self.h0_t0_out as i32;
            let drh: i32 = self.h1_rh as i32 - self.h0_rh as i32;
            assert(abs(dh * drh) <= 65535 * 127) by (nonlinear_arith)
                requires
                    -65535 <= dh <= 65535,
                    -127 <= drh <= 127,
            ;
            let num: i32 = dh * drh;
            let span: i32 = self.h1_t0_out as i32 - self.h0_t0_out as i32;
            proof {
                lemma_quot_bounded(num as int, span as int);
            }
            div_toward_zero(num, span) + self.h0_rh as i32
        } else {
            self.h0_rh as i32
        }
    }

    /// Relative humidity in tenths of a percent for the raw output `h_out`,
    /// always within `[0, 1000]`.
    pub fn humidity(&self, h_out: i16) -> (r: i32)
        requires
            self.wf(),
        ensures
            r == self.humidity_spec(h_out as int),
            0 <= r <= 1000,
    {
        let whole = self.humidity_whole(h_out);
        clamp_i32(whole * 10, 0, 1000)
    }
}

/// Humidity in tenths of a percent decoded from a calibration block and a
/// 4-byte output block (raw humidity at bytes 0..2).
pub open spec fn hts221_humidity(calib: Seq<u8>, data: Seq<u8>) -> int {
    calibration_of(calib).humidity_spec(i16_le(data[0], data[1]))
}

/// Temperature in tenths of a degree decoded from a calibration block and a
/// 4-byte output block (raw temperature at bytes 2..4).
pub open spec fn hts221_temperature(calib: Seq<u8>, data: Seq<u8>) -> int {
    calibration_of(calib).temperature_spec(i16_le(data[2], data[3]))
}

/// Decodes the calibration block and an output block into
/// `(humidity in 0.1 %RH, temperature in 0.1 C)`.
pub fn decode_hts221(calib: &[u8; 16], data: &[u8; 4]) -> (r: (i32, i32))
    ensures
        r.0 == hts221_humidity(calib@, data@),
        r.1 == hts221_temperature(calib@, data@),
        0 <= r.0 <= 1000,
{
    let c = Calibration::from_bytes(calib);
    let h_out = i16_from_le(data[0], data[1]);
    let t_out = i16_from_le(data[2], data[3]);
    (c.humidity(h_out), c.temperature(t_out))
}

/// With equal temperature reference outputs, the decoded temperature is the
/// lower reference point in tenths, whatever the raw temperature output.
pub proof fn lemma_temperature_degenerate_span(calib: Seq<u8>, data: Seq<u8>)
    requires
        calib.len() == 16,
        data.len() == 4,
        calibration_of(calib).t1_out == calibration_of(calib).t0_out,
    ensures
        hts221_temperature(calib, data) == calibration_of(calib).t0_deg_c * 10,
{
}

/// With equal humidity reference outputs, the interpolated humidity is the
/// lower reference point `h0_rh`, and the decoded humidity is that value
/// scaled by ten and held to `[0, 1000]`, whatever the raw humidity output.
pub proof fn lemma_humidity_degenerate_span(calib: Seq<u8>, data: Seq<u8>)
    requires
        calib.len() == 16,
        data.len() == 4,
        calibration_of(calib).h1_t0_out == calibration_of(calib).h0_t0_out,
    ensures
        calibration_of(calib).humidity_whole_spec(i16_le(data[0], data[1])) == calibration_of(
            calib,
        ).h0_rh,
        hts221_humidity(calib, data) == clamp(calibration_of(calib).h0_rh * 10, 0, 1000),
{
}

/// The decoded humidity lies in `[0, 1000]` for every calibration block and
/// every output block.
pub proof fn lemma_humidity_in_range(calib: Seq<u8>, data: Seq<u8>)
    requires
        calib.len() == 16,
        data.len() == 4,
    ensures
        0 <= hts221_humidity(calib, data) <= 1000,
{
}

/// Decoding depends on the bytes alone: equal calibration blocks and equal
/// output blocks give equal readings.
pub proof fn lemma_hts221_deterministic(calib1: Seq<u8>, data1: Seq<u8>, calib2: Seq<u8>, data2: Seq<u8>)
    requires
        calib1.len() == 16,
        data1.len() == 4,
        calib1 == calib2,
        data1 == data2,
    ensures
        hts221_humidity(calib1, data1) == hts221_humidity(calib2, data2),
        hts221_temperature(calib1, data1) == hts221_temperature(calib2, data2),
{
}

} // verus!
