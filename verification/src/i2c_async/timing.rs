//! The numbers that set the controller up for a bus speed.

use vstd::prelude::*;

verus! {

#[derive(Debug, Clone, Copy, PartialEq, Eq, Structural)]
pub enum DutyCycle {
    Ratio2to1,
    Ratio16to9,
}

/// The speed of the bus, in hertz.
#[derive(Debug, Clone, Copy, PartialEq, Eq, Structural)]
pub enum Mode {
    Standard { frequency: u32 },
    Fast { frequency: u32, duty_cycle: DutyCycle },
}

/// What goes into the controller's registers.
#[derive(Debug, Clone, Copy, PartialEq, Eq, Structural)]
pub struct BusTiming {
    /// The peripheral clock in megahertz.
    pub freq: u8,
    /// The longest rise time, in clock periods and one more.
    pub trise: u8,
    /// Fast mode.
    pub f_s: bool,
    /// In fast mode, the duty cycle of 16 to 9.
    pub duty: bool,
    /// The clock control value.
    pub ccr: u16,
}

impl Mode {
    pub open spec fn frequency(self) -> u32 {
        match self {
            Mode::Standard { frequency } => frequency,
            Mode::Fast { frequency, .. } => frequency,
        }
    }

    /// The number of clock control steps in one period of the bus.
    pub open spec fn steps(self) -> int {
        match self {
            Mode::Standard { .. } => 2,
            Mode::Fast { duty_cycle: DutyCycle::Ratio2to1, .. } => 3,
            Mode::Fast { duty_cycle: DutyCycle::Ratio16to9, .. } => 25,
        }
    }

    /// The least clock control value.
    pub open spec fn floor(self) -> int {
        match self {
            Mode::Standard { .. } => 4,
            Mode::Fast { .. } => 1,
        }
    }
}

/// Can the controller run at this speed from this peripheral clock? The clock
/// has to be 2 to 50 MHz, and the speed more than nothing.
pub open spec fn supported(mode: Mode, pclk: u32) -> bool {
    &&& 2 <= pclk / 1000000 <= 50
    &&& mode.frequency() > 0
    &&& mode.frequency() * mode.steps() <= u32::MAX
}

/// The settings for a speed and a peripheral clock. The clock control value is
/// the clock divided by the steps of a bus period, no less than the floor of
/// the mode, and as much of it as sixteen bits hold.
pub open spec fn timing(mode: Mode, pclk: u32) -> BusTiming {
    let mhz = pclk / 1000000;
    let divided = pclk as int / (mode.frequency() * mode.steps());
    BusTiming {
        freq: mhz as u8,
        trise: match mode {
            Mode::Standard { .. } => (mhz + 1) as u8,
            Mode::Fast { .. } => (mhz * 300 / 1000 + 1) as u8,
        },
        f_s: mode is Fast,
        duty: mode matches Mode::Fast { duty_cycle: DutyCycle::Ratio16to9, .. },
        ccr: ((if divided < mode.floor() {
            mode.floor()
        } else {
            divided
        }) % 0x10000) as u16,
    }
}

/// Works out the settings for a speed and a peripheral clock.
pub fn i2c_init(mode: Mode, pclk: u32) -> (settings: BusTiming)
    requires
        supported(mode, pclk),
    ensures
        settings == timing(mode, pclk),
{
    let clock = pclk;
    let clc_mhz = clock / 1000000;
    let trise = match mode {
        Mode::Standard { .. } => clc_mhz + 1,
        Mode::Fast { .. } => clc_mhz * 300 / 1000 + 1,
    };
    match mode {
        Mode::Standard { frequency } => {
            let divided = clock / (frequency * 2);
            let ccr: u32 = if divided < 4 { 4 } else { divided };
            assert((ccr as u16) as u32 == ccr % 0x10000u32) by (bit_vector);
            BusTiming {
                freq: clc_mhz as u8,
                trise: trise as u8,
                f_s: false,
                duty: false,
                ccr: #[verifier::truncate] (ccr as u16),
            }
        },
        Mode::Fast { frequency, duty_cycle } => match duty_cycle {
            DutyCycle::Ratio2to1 => {
                let divided = clock / (frequency * 3);
                let ccr: u32 = if divided < 1 { 1 } else { divided };
                assert((ccr as u16) as u32 == ccr % 0x10000u32) by (bit_vector);
                BusTiming {
                    freq: clc_mhz as u8,
                    trise: trise as u8,
                    f_s: true,
                    duty: false,
                    ccr: #[verifier::truncate] (ccr as u16),
                }
            },
            DutyCycle::Ratio16to9 => {
                let divided = clock / (frequency * 25);
                let ccr: u32 = if divided < 1 { 1 } else { divided };
                assert((ccr as u16) as u32 == ccr % 0x10000u32) by (bit_vector);
                BusTiming {
                    freq: clc_mhz as u8,
                    trise: trise as u8,
                    f_s: true,
                    duty: true,
                    ccr: #[verifier::truncate] (ccr as u16),
                }
            },
        },
    }
}

} // verus!
