[package]
name = "niri_screencast"
version = "0.1.0"
edition = "2021"
publish = false

[dependencies]
zbus = "5"
getrandom = "0.3"
async-channel = "2"
async-io = "2"
calloop = "0.14"
futures-util = { version = "0.3", default-features = false, features = ["std", "async-await"] }
anyhow = "1"
niri-ipc = "*"
serde = { version = "1", features = ["derive"] }
smithay = { version = "0.7", default-features = false }
pango = "0.21"
pangocairo = "0.21"
