[package]
name = "pulse_oximeter"
version = "0.1.0"
edition = "2021"
publish = false

[dependencies]
defmt = "=1.2.0"
embedded-hal = "=1.0.0"
esp-backtrace = "=0.20.0"
esp-bootloader-esp-idf = "=0.6.0"
esp-hal = "=1.2.2"
esp-println = "=0.18.0"
hayasen = { version = "=0.1.1", features = ["max30102"] }
rtt-target = "=0.6.2"
