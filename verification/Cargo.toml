[package]
name = "service_logging"
version = "0.4.8"
edition = "2021"
publish = false

[dependencies]
async-trait = "0.1"
js-sys = "0.3"
reqwest = { version = "*", default-features = false }
serde_json = "1"
wasm-bindgen = "0.2"
web-sys = { version = "0.3", features = ["console"] }
