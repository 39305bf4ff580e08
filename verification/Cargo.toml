[package]
name = "toon"
version = "0.1.0"
edition = "2021"
publish = false

[dependencies]
unicode-width = "0.1"
smartstring = "1"
either = "1"
crossterm = { version = "0.18", features = ["event-stream"] }
futures-util = "0.3"
os_pipe = "*"
stdio-override = "*"
async-channel = "*"
futures-lite = "*"
