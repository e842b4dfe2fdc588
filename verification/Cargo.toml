[package]
name = "owl_dial"
version = "0.1.0"
edition = "2021"
publish = false

[dependencies]
usbd-hid = "*"
heapless = "*"
embassy-time = "*"
embassy-sync = "*"
embassy-futures = "*"
embassy-executor = "*"
embassy-usb = "*"
embassy-net = "*"
rust-mqtt = "*"
static_cell = "*"
critical-section = "*"
defmt = "*"
