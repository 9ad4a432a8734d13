[package]
name = "deeptranslator"
version = "0.1.0"
edition = "2021"
publish = false

[dependencies]
clap = "4"
gloo-utils = { version = "0.2", features = ["serde"] }
reqwest = { version = "0.11", default-features = false, features = ["json", "rustls-tls"] }
scraper = "*"
serde = { version = "1", features = ["derive"] }
serde_json = "1"
tokio = { version = "1", features = ["macros", "rt-multi-thread"] }
wasm-bindgen = "0.2"
wasm-bindgen-futures = "0.4"
