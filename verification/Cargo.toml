[package]
name = "clipsync"
version = "0.1.0"
edition = "2021"
publish = false

[dependencies]
image = { version = "*", default-features = false, features = ["png"] }
tokio = { version = "*", features = ["rt-multi-thread", "net", "time", "sync", "io-util", "macros", "signal"] }
clap = { version = "*", features = ["derive"] }
arboard = "*"
notify-rust = "*"
anyhow = "*"
