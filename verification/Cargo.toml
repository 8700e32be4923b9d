[package]
name = "fxprobe"
version = "0.1.0"
edition = "2021"
publish = false

[dependencies]
anyhow = "*"
clap = { version = "*", features = ["derive"] }
dirs = "*"
plist = "*"
serde = { version = "*", features = ["derive"] }
serde_json = "*"
winreg = "*"
