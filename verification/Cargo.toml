[package]
name = "pulse_capture"
version = "0.1.0"
edition = "2021"
publish = false

[dependencies]
cortex-m = "=0.7.9"
cortex-m-rt = "=0.7.7"
critical-section = "=1.2.0"
defmt = "=0.3.100"
defmt-rtt = "=0.4.2"
embedded-hal = "=0.2.7"
panic-probe = "=0.3.2"
rp-pico = "=0.9.0"
