[package]
name = "command_executor"
version = "0.1.0"
edition = "2021"
publish = false

[dependencies]
serde_json = "1"
serialport = { version = "4", default-features = false }
adafruit_motorkit = "*"
