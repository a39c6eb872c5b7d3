[package]
name = "idml_import"
version = "0.1.0"
edition = "2021"
publish = false

[dependencies]
base64 = "=0.22.1"
bytes = { version = "=1.12.1", features = ["serde"] }
quick-xml = "=0.41.0"
serde = { version = "=1.0.229", features = ["derive"] }
serde_json = "=1.0.154"
thiserror = "=2.0.21"
wasm-bindgen = "=0.2.130"
zip = { version = "=8.6.0", default-features = false, features = ["deflate"] }
