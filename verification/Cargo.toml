[package]
name = "qr_link"
version = "0.1.0"
edition = "2021"
publish = false

[dependencies]
base64 = "0.22"
image = { version = "0.25", default-features = false, features = ["png"] }
qrcode = "0.14"
reqwest = "0.12"
url = "2"
wasm-bindgen = "0.2"
wasm-bindgen-futures = "0.4"

[dev-dependencies]
rqrr = { version = "*", default-features = false }
