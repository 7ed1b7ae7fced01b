[package]
name = "zcad"
version = "0.1.0"
edition = "2021"
publish = false

[dependencies]
hex = "0.4"
zstd = "0.13"
serde = { version = "1", features = ["derive"] }
rmp-serde = "1"
thiserror = "1"
