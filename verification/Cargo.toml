[package]
name = "b2native"
version = "0.1.0"
edition = "2021"
publish = false

[dependencies]
dioxus = { version = "0.6", features = ["router"] }
dioxus-logger = "0.6"
figment = { version = "0.10", features = ["env"] }
reqwest = "0.12"
serde = { version = "1", features = ["derive"] }
serde_json = "1"
tokio = { version = "1", features = ["rt-multi-thread"] }
wasm-bindgen = "0.2"
