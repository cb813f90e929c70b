[package]
name = "rust_wasm_compute"
version = "0.1.0"
edition = "2021"
publish = false

[dependencies]
actix-web = "*"
serde = { version = "*", features = ["derive"] }
serde_json = "*"
rayon = "*"
ndarray = "*"
