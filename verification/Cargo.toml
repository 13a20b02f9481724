[package]
name = "clock_firmware"
version = "0.1.0"
edition = "2021"
publish = false

[dependencies]
heapless = "=0.8.0"
cortex-m = "=0.7.7"
cortex-m-rtic = "=1.1.4"
critical-section = "=1.2.0"
embedded-graphics = "=0.7.1"
nb = "=1.1.0"
panic-halt = "=0.2.0"
spin = "=0.9.9"
stm32f4xx-hal = { version = "=0.15.0", features = ["stm32f411", "rtic"] }
