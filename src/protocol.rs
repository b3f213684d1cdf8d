//! Register protocol shared by both sensors on the two-wire bus: each is
//! powered on by a write to its first control register, then read by
//! writing one command byte (the first register's address with the
//! auto-increment bit set) and reading the block that follows.

use vstd::prelude::*;

verus! {

/// Address of control register 1 on both sensors.
pub const CTRL_REG1: u8 = 0x20;

/// Value of control register 1 that powers a sensor on.
pub const CTRL_POWER_ON: u8 = 0x80;

/// Bit of a register address that makes a multi-byte read step through
/// consecutive registers.
pub const AUTO_INCREMENT: u8 = 0x80;

/// First pressure output register of the LPS25H (`PRESS_OUT_XL`); the five
/// bytes from it are the pressure and temperature outputs.
pub const LPS25H_OUT_BASE: u8 = 0x28;

/// First output register of the HTS221 (`HUMIDITY_OUT_L`); the four bytes
/// from it are the humidity and temperature outputs.
pub const HTS221_OUT_BASE: u8 = 0x28;

/// First calibration register of the HTS221 (`H0_rH_x2`); the sixteen bytes
/// from it are the calibration block.
pub const HTS221_CALIB_BASE: u8 = 0x30;

/// Milliseconds to wait after powering the sensors on before the first read.
pub const SETTLE_MILLIS: u64 = 50;

/// The command byte that starts an auto-incrementing read at `register`.
pub fn read_command(register: u8) -> (r: u8)
    requires
        register < 0x80,
    ensures
        r == register + 0x80,
{
    assert((register | 0x80u8) == register + 0x80) by (bit_vector)
        requires
            register < 0x80,
    ;
    register | AUTO_INCREMENT
}

} // verus!
