use sense::{format_record, record_from_blocks};

#[test]
fn record_line_layout() {
    assert_eq!(
        format_record(1700000000, 1013, 253, 456, 251),
        "1700000000\t1013.00\t253.00\t456.00\t251.00"
    );
}

#[test]
fn record_line_negative_and_zero() {
    assert_eq!(format_record(0, 0, -52, 0, -7), "0\t0.00\t-52.00\t0.00\t-7.00");
    assert_eq!(format_record(-1, 10, 100, 1000, 9), "-1\t10.00\t100.00\t1000.00\t9.00");
}

#[test]
fn record_line_extremes() {
    assert_eq!(
        format_record(i64::MIN, i32::MIN, i32::MAX, 0, 1),
        "-9223372036854775808\t-2147483648.00\t2147483647.00\t0.00\t1.00"
    );
    assert_eq!(format_record(i64::MAX, 0, 0, 0, 0), "9223372036854775807\t0.00\t0.00\t0.00\t0.00");
}

#[test]
fn record_from_raw_blocks() {
    let press = [0x00, 0x00, 0x60, 0x00, 0x00];
    let mut calib = [0u8; 16];
    calib[0] = 80;
    calib[1] = 160;
    calib[2] = 160;
    calib[3] = 240;
    calib[10] = 0xE8;
    calib[11] = 0x03;
    calib[14] = 0xE8;
    calib[15] = 0x03;
    let hum = [0xF4, 0x01, 0xF4, 0x01];
    assert_eq!(
        record_from_blocks(1700000000, &press, &calib, &hum),
        "1700000000\t1536.00\t425.00\t600.00\t250.00"
    );
}
