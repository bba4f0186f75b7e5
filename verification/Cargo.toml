[package]
name = "epaper_drivers"
version = "0.1.0"
edition = "2021"
publish = false

[dependencies]
rand = "=0.8.8"
embedded-hal = "=0.2.7"
rppal = { version = "=0.22.1", features = ["hal"] }
pcf857x = "=0.4.0"
port-expander = "=0.3.1"
m95320 = "=1.3.0"
shared-bus = "=0.3.1"
png = "=0.17.16"
signal-hook = "=0.3.18"
napi = { version = "=2.16.17", features = ["napi4"] }
napi-derive = "=2.16.13"
