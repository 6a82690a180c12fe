[package]
name = "basalt_widgets"
version = "0.1.0"
edition = "2021"
publish = false

[dependencies]
basalt = { version = "0.21.0", default-features = false }
parking_lot = "0.12.5"
