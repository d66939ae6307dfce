[package]
name = "rotozoomer"
version = "0.1.0"
edition = "2021"
publish = false

[dependencies]
cortex-m-rt = "0.7"
defmt-rtt = "0.4"
embedded-hal = { version = "0.2.7", features = ["unproven"] }
micromath = "2.0"
panic-probe = { version = "0.3", features = ["print-defmt"] }
rp-pico = "0.9"
