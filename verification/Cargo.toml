[package]
name = "ble_peripheral"
version = "0.1.0"
edition = "2021"
publish = false

[dependencies]
heapless = "0.8"
enumset = "1"
