//! The registers of the real-time clock chip: binary-coded decimal, and the
//! hour register with its two formats.

use vstd::prelude::*;

use crate::displayinfo::TimeOfDay;

verus! {

/// The bus address of the chip.
pub const I2C_ADDRESS: u8 = 0x68;

/// The number of time registers, from the seconds on.
pub const REGISTER_COUNT: usize = 7;

/// In the hour register: set for the 12-hour format.
pub const HOURS_12: u8 = 0x40;

/// In the hour register, 12-hour format: set for the afternoon.
pub const HOURS_PM: u8 = 0x20;

pub enum Register {
    Seconds,
    Minutes,
    Hours,
}

impl Register {
    /// The place of the register in the chip.
    pub fn index(&self) -> (index: usize)
        ensures
            index == match *self {
                Register::Seconds => 0usize,
                Register::Minutes => 1usize,
                Register::Hours => 2usize,
            },
    {
        match self {
            Register::Seconds => 0,
            Register::Minutes => 1,
            Register::Hours => 2,
        }
    }
}

#[derive(Debug, Clone, Copy, PartialEq, Eq, Structural)]
pub enum Error {
    I2CError,
    Busy,
}

/// The number that a byte of two decimal digits stands for: the high half is
/// the tens, the low half the units.
pub open spec fn spec_bcd_to_decimal(bcd: u8) -> int {
    (bcd / 16) * 10 + bcd % 16
}

/// The byte of two decimal digits for a number below 100.
pub open spec fn spec_decimal_to_bcd(d: u8) -> int {
    (d / 10) * 16 + d % 10
}

/// The hour that the hour register stands for. In the 12-hour format the
/// two flags are left out of the digits and the afternoon adds 12.
pub open spec fn spec_hours_to_decimal(bcd: u8) -> int {
    if bcd & HOURS_12 != 0 {
        if bcd & HOURS_PM != 0 {
            12 + spec_bcd_to_decimal(bcd & !(HOURS_PM | HOURS_12))
        } else {
            spec_bcd_to_decimal(bcd & !(HOURS_PM | HOURS_12))
        }
    } else {
        spec_bcd_to_decimal(bcd & !HOURS_12)
    }
}

pub fn bcd_to_decimal(bcd: u8) -> (d: u8)
    ensures
        d == spec_bcd_to_decimal(bcd),
{
    assert((bcd & 0b11110000) >> 4 == bcd / 16) by (bit_vector);
    assert(bcd & 0b00001111 == bcd % 16) by (bit_vector);
    ((bcd & 0b11110000) >> 4) * 10 + (bcd & 0b00001111)
}

/// For a number below 100 the byte of its two decimal digits. For any other
/// the tens no longer fit the high half, and what overflows is lost.
pub fn decimal_to_bcd(d: u8) -> (bcd: u8)
    ensures
        d < 100 ==> bcd == spec_decimal_to_bcd(d),
        bcd == ((d / 10) * 16) % 256 + d % 10,
{
    let tens: u8 = d / 10;
    let units: u8 = d % 10;
    assert((tens << 4) | units == (tens * 16) % 256 + units) by (bit_vector)
        requires
            tens <= 25,
            units <= 9,
    ;
    (tens << 4) | units
}

pub fn hours_to_decimal(bcd: u8) -> (hours: u8)
    ensures
        hours == spec_hours_to_decimal(bcd),
{
    let is_ampm_format = HOURS_12 & bcd;
    assert(HOURS_12 & bcd == bcd & HOURS_12) by (bit_vector);
    assert(HOURS_PM & bcd == bcd & HOURS_PM) by (bit_vector);
    assert((bcd & !(0x20u8 | 0x40u8)) / 16 <= 9) by (bit_vector);
    if is_ampm_format != 0 {
        if HOURS_PM & bcd != 0 {
            return 12 + bcd_to_decimal(bcd & !(HOURS_PM | HOURS_12));
        } else {
            return bcd_to_decimal(bcd & !(HOURS_PM | HOURS_12));
        }
    }
    bcd_to_decimal(bcd & !HOURS_12)
}

/// The time that the seven registers hold, as read from the first register
/// on.
pub fn decode_time(data: &[u8; 7]) -> (time: TimeOfDay)
    ensures
        time.seconds == spec_bcd_to_decimal(data[0]),
        time.minutes == spec_bcd_to_decimal(data[1]),
        time.hours == spec_hours_to_decimal(data[2]),
{
    TimeOfDay {
        seconds: bcd_to_decimal(data[Register::Seconds.index()]),
        minutes: bcd_to_decimal(data[Register::Minutes.index()]),
        hours: hours_to_decimal(data[Register::Hours.index()]),
    }
}

/// The seven registers for a time, in the 24-hour format; what is not the
/// time of day is zero.
pub fn encode_time(time: TimeOfDay) -> (data: [u8; 7])
    requires
        time.hours < 24,
        time.minutes < 60,
        time.seconds < 60,
    ensures
        data[0] == spec_decimal_to_bcd(time.seconds),
        data[1] == spec_decimal_to_bcd(time.minutes),
        data[2] == spec_decimal_to_bcd(time.hours),
        forall|i: int| 3 <= i < 7 ==> data[i] == 0,
{
    let mut data = [0u8;7];
    data[Register::Seconds.index()] = decimal_to_bcd(time.seconds);
    data[Register::Minutes.index()] = decimal_to_bcd(time.minutes);
    data[Register::Hours.index()] = decimal_to_bcd(time.hours);
    data
}

/// What is written to set the registers: the number of the first register,
/// then the registers.
pub fn write_frame(regs: &[u8; 7]) -> (frame: [u8; 8])
    ensures
        frame[0] == 0,
        forall|i: int| 0 <= i < 7 ==> frame[i + 1] == regs[i],
{
    let mut frame = [0u8;8];
    let mut i: usize = 0;
    while i < 7
        invariant
            i <= 7,
            frame[0] == 0,
            forall|j: int| 0 <= j < i ==> frame[j + 1] == regs[j],
        decreases 7 - i,
    {
        frame[i + 1] = regs[i];
        i += 1;
    }
    frame
}

/// A number below 100 comes back from its byte of two digits.
pub proof fn law_bcd_round_trip(d: u8)
    requires
        d < 100,
    ensures
        0 <= spec_decimal_to_bcd(d) < 256,
        spec_bcd_to_decimal(spec_decimal_to_bcd(d) as u8) == d,
{
}

/// An hour in the 24-hour format comes back from the registers as it was
/// set.
pub proof fn law_hours_round_trip(hours: u8)
    requires
        hours < 24,
    ensures
        spec_hours_to_decimal(spec_decimal_to_bcd(hours) as u8) == hours,
{
    let bcd = spec_decimal_to_bcd(hours) as u8;
    assert(bcd < 0x40);
    assert(bcd & 0x40u8 == 0 && bcd & !0x40u8 == bcd) by (bit_vector)
        requires
            bcd < 0x40,
    ;
}

} // verus!
