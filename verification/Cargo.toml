[package]
name = "bw-replay"
version = "0.1.0"
edition = "2021"
publish = false

[dependencies]
flate2 = "1"
explode = "0.1"
encoding_rs = "0.8"
thiserror = "2"
serde = { version = "1", features = ["derive"] }
wasm-bindgen = "0.2"
serde-wasm-bindgen = "0.6"
