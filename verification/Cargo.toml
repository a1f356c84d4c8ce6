[package]
name = "agb_serial"
version = "0.1.0"
edition = "2021"
publish = false

[dependencies]
bitflags = "2"
critical-section = "1"
heapless = "0.8"
