[package]
name = "katana_sysex"
version = "0.1.0"
edition = "2021"
publish = false

[dependencies]
heapless = "=0.8.0"
rp2040-hal = { version = "=0.10.2", features = ["defmt"] }
rp-pico = "=0.9.0"
cortex-m = "=0.7.10"
cortex-m-rt = "=0.7.7"
critical-section = "=1.2.0"
defmt = "=0.3.101"
defmt-rtt = "=0.4.2"
embedded-alloc = "=0.5.1"
panic-probe = { version = "=0.3.2", features = ["print-defmt"] }
pio = "=0.2.1"
pio-proc = "=0.2.2"
static_cell = "=2.1.1"
