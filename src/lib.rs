//! Decoding of the raw register blocks of an LPS25H pressure sensor and an
//! HTS221 humidity sensor into fixed-point readings, and rendering of one
//! timestamped record line.
//!
//! Readings are integers: pressure in whole hPa, temperatures in tenths of a
//! degree Celsius, relative humidity in tenths of a percent.

pub mod arith;
pub mod hts221;
pub mod le;
pub mod lps25h;
pub mod protocol;
pub mod record;

pub use arith::{clamp_i32, div_toward_zero};
pub use hts221::{decode_hts221, Calibration};
pub use le::{i16_from_le, i24_from_le, u16_from_le, u24_from_le};
pub use lps25h::decode_lps25h;
pub use protocol::{
    read_command, AUTO_INCREMENT, CTRL_POWER_ON, CTRL_REG1, HTS221_CALIB_BASE, HTS221_OUT_BASE,
    LPS25H_OUT_BASE, SETTLE_MILLIS,
};
pub use record::{format_record, record_from_blocks};
