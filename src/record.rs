//! The record line: a capture timestamp and the four readings, separated by
//! tabs, in the order timestamp, pressure, temperature from the barometer,
//! humidity, temperature from the humidity sensor.
//!
//! Compatibility decision: each of the four readings is shown with two
//! decimals, the integer followed by `.00` (so 1013 hPa reads `1013.00`, and
//! 253 tenths of a degree reads `253.00`). The values are not rescaled; their
//! units are those of the decoders. The timestamp is a plain integer. Earlier
//! versions of this tool asked for two decimals on integers, which Rust's
//! formatting ignores, so their lines carry no `.00`: a log parser that reads
//! lines from both must accept either form.

use vstd::prelude::*;
use vstd::string::StringExecFns;

use crate::hts221::{decode_hts221, hts221_humidity, hts221_temperature};
use crate::lps25h::{decode_lps25h, lps25h_pressure, lps25h_temperature};

verus! {

/// The ASCII character of a decimal digit.
pub open spec fn digit_char(d: nat) -> char
    recommends
        d < 10,
{
    (d + 48) as char
}

/// The decimal digits of `n`, most significant first, without leading zeros.
pub open spec fn digits_of(n: nat) -> Seq<char>
    decreases n,
{
    if n < 10 {
        seq![digit_char(n)]
    } else {
        digits_of(n / 10).push(digit_char(n % 10))
    }
}

/// The decimal text of `v`, with a leading `-` when it is negative.
pub open spec fn int_text(v: int) -> Seq<char> {
    if v < 0 {
        seq!['-'] + digits_of((-v) as nat)
    } else {
        digits_of(v as nat)
    }
}

/// The text of a reading: its decimal text followed by `.00`.
pub open spec fn reading_text(v: int) -> Seq<char> {
    int_text(v) + seq!['.', '0', '0']
}

/// The whole record line, without a line terminator.
pub open spec fn record_text(
    timestamp: int,
    pressure: int,
    temp_press: int,
    humidity: int,
    temp_hum: int,
) -> Seq<char> {
    int_text(timestamp) + seq!['\t'] + reading_text(pressure) + seq!['\t'] + reading_text(
        temp_press,
    ) + seq!['\t'] + reading_text(humidity) + seq!['\t'] + reading_text(temp_hum)
}

fn digit_str(d: u64) -> (r: &'static str)
    requires
        d < 10,
    ensures
        r@ == seq![digit_char(d as nat)],
{
    proof {
        reveal_strlit("0");
        reveal_strlit("1");
        reveal_strlit("2");
        reveal_strlit("3");
        reveal_strlit("4");
        reveal_strlit("5");
        reveal_strlit("6");
        reveal_strlit("7");
        reveal_strlit("8");
        reveal_strlit("9");
    }
    if d == 0 {
        "0"
    } else if d == 1 {
        "1"
    } else if d == 2 {
        "2"
    } else if d == 3 {
        "3"
    } else if d == 4 {
        "4"
    } else if d == 5 {
        "5"
    } else if d == 6 {
        "6"
    } else if d == 7 {
        "7"
    } else if d == 8 {
        "8"
    } else {
        "9"
    }
}

fn append_digits(s: &mut String, n: u64)
    ensures
        final(s)@ == old(s)@ + digits_of(n as nat),
    decreases n,
{
    if n >= 10 {
        append_digits(s, n / 10);
    }
    s.append(digit_str(n % 10));
    assert(final(s)@ =~= old(s)@ + digits_of(n as nat));
}

fn append_int(s: &mut String, v: i64)
    ensures
        final(s)@ == old(s)@ + int_text(v as int),
{
    if v < 0 {
        s.append("-");
        let m: u64 = ((-(v + 1)) as u64) + 1;
        append_digits(s, m);
        proof {
            reveal_strlit("-");
        }
        assert(final(s)@ =~= old(s)@ + int_text(v as int));
    } else {
        append_digits(s, v as u64);
    }
}

fn append_reading(s: &mut String, v: i32)
    ensures
        final(s)@ == old(s)@ + reading_text(v as int),
{
    append_int(s, v as i64);
    s.append(".00");
    proof {
        reveal_strlit(".00");
    }
    assert(final(s)@ =~= old(s)@ + reading_text(v as int));
}

/// Renders one record line from the capture time in Unix seconds and the two
/// sensors' readings.
pub fn format_record(timestamp: i64, pressure: i32, temp_press: i32, humidity: i32, temp_hum: i32) -> (r: String)
    ensures
        r@ == record_text(
            timestamp as int,
            pressure as int,
            temp_press as int,
            humidity as int,
            temp_hum as int,
        ),
{
    proof {
        reveal_strlit("\t");
    }
    let mut s = String::new();
    append_int(&mut s, timestamp);
    s.append("\t");
    append_reading(&mut s, pressure);
    s.append("\t");
    append_reading(&mut s, temp_press);
    s.append("\t");
    append_reading(&mut s, humidity);
    s.append("\t");
    append_reading(&mut s, temp_hum);
    assert(s@ =~= record_text(
        timestamp as int,
        pressure as int,
        temp_press as int,
        humidity as int,
        temp_hum as int,
    ));
    s
}

/// Decodes the raw blocks of both sensors and renders the record line for
/// them: the barometer's output block, then the humidity sensor's
/// calibration block and output block.
pub fn record_from_blocks(timestamp: i64, press_raw: &[u8; 5], calib: &[u8; 16], hum_raw: &[u8; 4]) -> (r: String)
    ensures
        r@ == record_text(
            timestamp as int,
            lps25h_pressure(press_raw@),
            lps25h_temperature(press_raw@),
            hts221_humidity(calib@, hum_raw@),
            hts221_temperature(calib@, hum_raw@),
        ),
{
    let (pressure, temp_press) = decode_lps25h(press_raw);
    let (humidity, temp_hum) = decode_hts221(calib, hum_raw);
    format_record(timestamp, pressure, temp_press, humidity, temp_hum)
}

} // verus!
