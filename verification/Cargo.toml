[package]
name = "cipher_harness"
version = "0.1.0"
edition = "2021"
publish = false

[dependencies]
aes = "*"
des = "*"
hex = "*"
rand = "*"
regex = "*"
clap = { version = "*", features = ["derive"] }
log = "*"
serde = { version = "*", features = ["derive"] }
serialport = { version = "*", default-features = false }
simple_logger = "*"
toml = "*"
