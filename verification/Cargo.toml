[package]
name = "decode_bench"
version = "0.1.0"
edition = "2021"
publish = false

[dependencies]
flate2 = "=1.1.10"
gif = "=0.10.3"
jpeg-decoder = { version = "=0.3.2", default-features = false, features = ["platform_independent"] }
png = "=0.16.8"
rustc_version_runtime = "=0.3.0"
