[package]
name = "v2ray_rs"
version = "0.1.0"
edition = "2021"
publish = false

[dependencies]
nix = { version = "*", features = ["fs", "signal", "process"] }
tokio = { version = "*", features = ["sync", "process", "rt-multi-thread", "io-util", "time", "macros"] }
base64 = "*"
serde_json = "*"
notify-rust = "*"
tempfile = "*"
