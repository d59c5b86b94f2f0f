[package]
name = "muos"
version = "0.1.0"
edition = "2021"
publish = false

[dependencies]
cortex-m = "0.7"
cortex-m-rt = "0.7"
defmt = "*"
defmt-rtt = "*"
panic-probe = { version = "*", features = ["print-defmt"] }
embedded-hal = "1"
rp235x-hal = { version = "*", features = ["rt", "critical-section-impl"] }
