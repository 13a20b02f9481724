//! Verified core of a clock, timer and stopwatch appliance: the interrupt-driven
//! engine that shares one two-wire bus between several device drivers, and the
//! rules behind its joystick and its displays.

pub mod app_state;
pub mod countdowntimer;
pub mod displayinfo;
pub mod ds3231;
pub mod format;
pub mod i2c_async;
pub mod joystick;
pub mod lm75b;
pub mod speedchanger;
pub mod ssd1306;
pub mod stopwatchtimer;
