[package]
name = "xilo"
version = "0.1.0"
edition = "2021"
publish = false

[dependencies]
base64ct = { version = "=1.8.3", features = ["alloc"] }
clap = { version = "=4.6.7", features = ["derive"] }
crossterm = "=0.29.0"
dirs = "=7.0.0"
fs_extra = "=1.3.0"
serde = { version = "=1.0.229", features = ["derive"] }
serde_json = "=1.0.151"
sha2 = "=0.11.0"
