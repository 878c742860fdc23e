[package]
name = "busmonitor"
version = "0.1.0"
edition = "2021"
publish = false

[dependencies]
serde_json = "*"
embedded-graphics = "*"
embedded-hal = "*"
epd-waveshare = "*"
anyhow = "*"
log = "*"
time = "*"
