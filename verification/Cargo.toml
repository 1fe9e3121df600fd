[package]
name = "flcq"
version = "0.1.1"
edition = "2021"
publish = false

[dependencies]
serialport = { version = "4", default-features = false }
question = "0.2"
rustop = "1"
