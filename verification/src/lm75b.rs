//! The temperature sensor: its bus address, the number in its register, and
//! the window over which readings are averaged.

use vstd::prelude::*;

verus! {

/// The number of readings that the average runs over.
pub const AVG_BUFFER_SIZE: usize = 10;

#[derive(Debug, Clone, Copy, PartialEq, Eq, Structural)]
pub enum Error {
    BusError,
}

/// The bus address of a sensor whose three address pins A0, A1, A2 are wired
/// like this.
pub open spec fn spec_device_address(address_config: [bool; 3]) -> int {
    0x48 + if address_config[0] { 1int } else { 0int } + if address_config[1] {
        2int
    } else {
        0int
    } + if address_config[2] { 4int } else { 0int }
}

/// The temperature in eighths of a degree Celsius that the two bytes of the
/// temperature register stand for: the upper eleven bits, as a signed number.
pub open spec fn spec_raw_temperature(buf: [u8; 2]) -> int {
    if buf[0] >= 128 {
        (buf[0] * 256 + buf[1]) / 32 - 2048
    } else {
        (buf[0] * 256 + buf[1]) / 32
    }
}

pub fn raw_temperature(buf: [u8; 2]) -> (eighths: i16)
    ensures
        eighths == spec_raw_temperature(buf),
        -1024 <= eighths < 1024,
{
    let word: u16 = (buf[0] as u16) * 256 + (buf[1] as u16);
    let magnitude: u16 = word / 32;
    if magnitude >= 1024 {
        (magnitude as i16) - 2048
    } else {
        magnitude as i16
    }
}

/// One sensor: where it lives on the bus, and where its next reading goes in
/// the window of the average.
#[derive(Debug, Clone, Copy, PartialEq, Eq, Structural)]
pub struct LM75B {
    address: u8,
    avg_pointer: usize,
    /// If true - all places of the window hold real data
    avg_full: bool,
}

/// What a sensor holds.
pub ghost struct SensorView {
    pub address: u8,
    pub pointer: int,
    pub full: bool,
}

impl View for LM75B {
    type V = SensorView;

    closed spec fn view(&self) -> SensorView {
        SensorView { address: self.address, pointer: self.avg_pointer as int, full: self.avg_full }
    }
}

impl LM75B {
    pub open spec fn wf(&self) -> bool {
        0 <= self@.pointer < AVG_BUFFER_SIZE
    }

    /// new crates LM75B driver
    /// # Arguments
    ///
    /// * `address_config` - A state of 3 address pins; [A0, A1, A2]; Refer LM75B docs
    pub fn new(address_config: [bool; 3]) -> (sensor: LM75B)
        ensures
            sensor@ == (SensorView {
                address: spec_device_address(address_config) as u8,
                pointer: 0,
                full: false,
            }),
            sensor.wf(),
    {
        let a0: u8 = if address_config[0] { 1 } else { 0 };
        let a1: u8 = if address_config[1] { 1 } else { 0 };
        let a2: u8 = if address_config[2] { 1 } else { 0 };
        assert(0b01001000u8 | (a0 << 0) | (a1 << 1) | (a2 << 2) == 0x48 + a0 + 2 * a1 + 4 * a2)
            by (bit_vector)
            requires
                a0 <= 1,
                a1 <= 1,
                a2 <= 1,
        ;
        let address = 0b01001000u8 | (a0 << 0) | (a1 << 1) | (a2 << 2);
        Self { address, avg_pointer: 0, avg_full: false }
    }

    pub fn address(&self) -> (address: u8)
        ensures
            address == self@.address,
    {
        self.address
    }

    /// Takes one reading in: the temperature in eighths of a degree, and the
    /// place in the window where it belongs. The window is full from the
    /// moment its last place is taken.
    pub fn temperature(&mut self, buf: [u8; 2]) -> (reading: (i16, usize))
        requires
            old(self).wf(),
        ensures
            final(self).wf(),
            reading.0 == spec_raw_temperature(buf),
            reading.1 == old(self)@.pointer,
            final(self)@ == (SensorView {
                pointer: (old(self)@.pointer + 1) % (AVG_BUFFER_SIZE as int),
                full: old(self)@.full || old(self)@.pointer + 1 == AVG_BUFFER_SIZE,
                ..old(self)@
            }),
    {
        let raw_temp = raw_temperature(buf);
        let place = self.avg_pointer;
        self.avg_pointer += 1;
        if self.avg_pointer == AVG_BUFFER_SIZE {
            self.avg_full = true;
        }
        self.avg_pointer %= AVG_BUFFER_SIZE;
        (raw_temp, place)
    }

    /// The number of readings to average: all places once the window is
    /// full, before that the places taken.
    pub fn samples(&self) -> (len: usize)
        requires
            self.wf(),
        ensures
            len == if self@.full { AVG_BUFFER_SIZE as int } else { self@.pointer },
    {
        if self.avg_full {
            AVG_BUFFER_SIZE
        } else {
            self.avg_pointer
        }
    }
}

} // verus!
