[package]
name = "pixelsprayer"
version = "0.1.0"
edition = "2021"
publish = false

[dependencies]
anyhow = "1"
argh = "0.1"
bytes = "1"
fastrand = "2"
png = "0.17"
tokio = { version = "1", features = ["net", "io-util", "rt-multi-thread", "macros"] }
