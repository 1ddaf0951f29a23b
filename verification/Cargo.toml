[package]
name = "mario_clock"
version = "0.1.0"
edition = "2021"
publish = false

[dependencies]
chrono = { version = "0.4", default-features = false }
chrono-tz = { version = "*", default-features = false }
embassy-executor = "*"
embassy-net = { version = "*", features = ["dhcpv4", "dns", "medium-ethernet", "proto-ipv4", "udp"] }
embassy-sync = "*"
embassy-time = "*"
embedded-graphics = "0.8"
embedded-hal = "1"
esp-alloc = "*"
esp-backtrace = "*"
esp-hal = "*"
esp-hal-embassy = "*"
esp-hub75 = "*"
esp-println = "*"
esp-wifi = "*"
heapless = "*"
pcf8563 = "*"
sntpc = "*"
static_cell = "*"
