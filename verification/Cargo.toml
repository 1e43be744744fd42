[package]
name = "openfx_driver"
version = "0.1.0"
edition = "2021"
publish = false

[dependencies]
anyhow = "1"
clap = { version = "4", features = ["derive"] }
exr = "1"
libc = "0.2"
libloading = "0.8"
plist = "1"
serde = { version = "1", features = ["derive"] }
serde_json = "1"
