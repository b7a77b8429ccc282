[package]
name = "voltage_meter"
version = "0.1.0"
edition = "2021"
publish = false

[dependencies]
critical-section = "*"
defmt = "*"
embassy-executor = "*"
embassy-sync = "*"
embassy-time = "*"
embedded-graphics = "*"
embedded-hal = "*"
embedded-hal-bus = "*"
esp-backtrace = "*"
esp-hal = "*"
esp-hal-embassy = "*"
esp-println = "*"
format_no_std = "*"
mipidsi = "*"
profont = "*"
static_cell = "*"
